//! Errors, library parameters, authorization states and formatted text.

use vstd::prelude::*;
use crate::codec::{
    discriminator, field, members_of, optional_field, put, read_field, read_optional, seal,
    Tagged, Union, Wire,
};
use crate::error::{DecodeError, Fault};
use crate::json::{Doc, Json, Member, tag_of, tagged};
use crate::text::same_text;
use crate::types::{
    TextEntityType,
};

verus! {

/// An object of this type can be returned on every function call, in case of an error
#[derive(Debug, Clone, PartialEq)]
pub struct Error {
    /// Error code; subject to future changes. If the error code is 406, the error message must not
    /// be processed in any way and must not be displayed to the user
    pub code: i32,
    /// Error message; subject to future changes
    pub message: String,
}

impl Wire for Error {
    #[verifier::opaque]
    open spec fn wire(&self) -> Doc {
        tagged(
            Map::empty()
                .insert("code"@, self.code.wire())
                .insert("message"@, self.message.wire()),
            "error"@,
        )
    }

    #[verifier::opaque]
    open spec fn parse(d: Doc, at: Seq<char>) -> Result<Doc, Fault> {
        match d {
            Doc::Object(m) => {
                let code = field::<i32>(m, "code"@);
                let message = field::<String>(m, "message"@);
                if code is Err {
                    code
                } else if message is Err {
                    message
                } else {
                    Ok(
                        tagged(
                            Map::empty()
                                .insert("code"@, code->Ok_0)
                                .insert("message"@, message->Ok_0),
                            "error"@,
                        ),
                    )
                }
            },
            _ => Err(Fault::TypeMismatch(at)),
        }
    }

    fn encode(&self) -> (j: Json) {
        proof {
            reveal(<Error as Wire>::wire);
        }
        let mut members: Vec<Member> = Vec::new();
        put(&mut members, "code", self.code.encode());
        put(&mut members, "message", self.message.encode());
        seal(members, "error")
    }

    fn decode(j: &Json, at: &str) -> (r: Result<Self, DecodeError>) {
        proof {
            reveal(<Error as Wire>::wire);
            reveal(<Error as Wire>::parse);
        }
        let members = members_of(j, at)?;
        let code = read_field::<i32>(members, "code")?;
        let message = read_field::<String>(members, "message")?;
        Ok(Error { code, message })
    }

    proof fn round_trip(&self, at: Seq<char>) {
        reveal(<Error as Wire>::wire);
        reveal(<Error as Wire>::parse);
        reveal_strlit("@type");
        reveal_strlit("code");
        reveal_strlit("message");
        assert("@type"@.len() == 5);
        assert("code"@.len() == 4);
        assert("message"@.len() == 7);
        self.code.round_trip("code"@);
        self.message.round_trip("message"@);
    }
}

impl Tagged for Error {
    open spec fn known(tag: Seq<char>) -> bool {
        tag == "error"@
    }

    fn knows(tag: &str) -> (r: bool) {
        same_text(tag, "error")
    }

    proof fn tag_known(&self) {
        reveal(<Error as Wire>::wire);
        assert(tag_of(self.wire()) == Some("error"@));
        assert(Self::known("error"@));
    }
}

/// An object of this type is returned on a successful function call for certain functions
#[derive(Debug, Clone, PartialEq)]
pub struct Okay {}

impl Wire for Okay {
    #[verifier::opaque]
    open spec fn wire(&self) -> Doc {
        tagged(Map::empty(), "ok"@)
    }

    #[verifier::opaque]
    open spec fn parse(d: Doc, at: Seq<char>) -> Result<Doc, Fault> {
        match d {
            Doc::Object(_) => Ok(tagged(Map::empty(), "ok"@)),
            _ => Err(Fault::TypeMismatch(at)),
        }
    }

    fn encode(&self) -> (j: Json) {
        proof {
            reveal(<Okay as Wire>::wire);
        }
        seal(Vec::new(), "ok")
    }

    fn decode(j: &Json, at: &str) -> (r: Result<Self, DecodeError>) {
        proof {
            reveal(<Okay as Wire>::wire);
            reveal(<Okay as Wire>::parse);
        }
        let _ = members_of(j, at)?;
        Ok(Okay {})
    }

    proof fn round_trip(&self, at: Seq<char>) {
        reveal(<Okay as Wire>::wire);
        reveal(<Okay as Wire>::parse);
    }
}

impl Tagged for Okay {
    open spec fn known(tag: Seq<char>) -> bool {
        tag == "ok"@
    }

    fn knows(tag: &str) -> (r: bool) {
        same_text(tag, "ok")
    }

    proof fn tag_known(&self) {
        reveal(<Okay as Wire>::wire);
        assert(tag_of(self.wire()) == Some("ok"@));
        assert(Self::known("ok"@));
    }
}

/// Contains parameters for TDLib initialization
#[derive(Debug, Clone, PartialEq)]
pub struct TdlibParameters {
    /// If set to true, the Telegram test environment will be used instead of the production
    /// environment
    pub use_test_dc: bool,
    /// The path to the directory for the persistent database; if empty, the current working
    /// directory will be used
    pub database_directory: String,
    /// The path to the directory for storing files; if empty, database_directory will be used
    pub files_directory: String,
    /// If set to true, information about downloaded and uploaded files will be saved between
    /// application restarts
    pub use_file_database: bool,
    /// If set to true, the library will maintain a cache of users, basic groups, supergroups,
    /// channels and secret chats. Implies use_file_database
    pub use_chat_info_database: bool,
    /// If set to true, the library will maintain a cache of chats and messages. Implies
    /// use_chat_info_database
    pub use_message_database: bool,
    /// If set to true, support for secret chats will be enabled
    pub use_secret_chats: bool,
    /// Application identifier for Telegram API access, which can be obtained at
    /// https://my.telegram.org
    pub api_id: i32,
    /// Application identifier hash for Telegram API access, which can be obtained at
    /// https://my.telegram.org
    pub api_hash: String,
    /// IETF language tag of the user's operating system language; must be non-empty
    pub system_language_code: String,
    /// Model of the device the application is being run on; must be non-empty
    pub device_model: String,
    /// Version of the operating system the application is being run on; must be non-empty
    pub system_version: String,
    /// Application version; must be non-empty
    pub application_version: String,
    /// If set to true, old files will automatically be deleted
    pub enable_storage_optimizer: bool,
    /// If set to true, original file names will be ignored. Otherwise, downloaded files will be
    /// saved under names as close as possible to the original name
    pub ignore_file_names: bool,
}

impl Wire for TdlibParameters {
    #[verifier::opaque]
    open spec fn wire(&self) -> Doc {
        tagged(
            Map::empty()
                .insert("useTestDc"@, self.use_test_dc.wire())
                .insert("databaseDirectory"@, self.database_directory.wire())
                .insert("filesDirectory"@, self.files_directory.wire())
                .insert("useFileDatabase"@, self.use_file_database.wire())
                .insert("useChatInfoDatabase"@, self.use_chat_info_database.wire())
                .insert("useMessageDatabase"@, self.use_message_database.wire())
                .insert("useSecretChats"@, self.use_secret_chats.wire())
                .insert("apiId"@, self.api_id.wire())
                .insert("apiHash"@, self.api_hash.wire())
                .insert("systemLanguageCode"@, self.system_language_code.wire())
                .insert("deviceModel"@, self.device_model.wire())
                .insert("systemVersion"@, self.system_version.wire())
                .insert("applicationVersion"@, self.application_version.wire())
                .insert("enableStorageOptimizer"@, self.enable_storage_optimizer.wire())
                .insert("ignoreFileNames"@, self.ignore_file_names.wire()),
            "tdlibParameters"@,
        )
    }

    #[verifier::opaque]
    open spec fn parse(d: Doc, at: Seq<char>) -> Result<Doc, Fault> {
        match d {
            Doc::Object(m) => {
                let use_test_dc = field::<bool>(m, "useTestDc"@);
                let database_directory = field::<String>(m, "databaseDirectory"@);
                let files_directory = field::<String>(m, "filesDirectory"@);
                let use_file_database = field::<bool>(m, "useFileDatabase"@);
                let use_chat_info_database = field::<bool>(m, "useChatInfoDatabase"@);
                let use_message_database = field::<bool>(m, "useMessageDatabase"@);
                let use_secret_chats = field::<bool>(m, "useSecretChats"@);
                let api_id = field::<i32>(m, "apiId"@);
                let api_hash = field::<String>(m, "apiHash"@);
                let system_language_code = field::<String>(m, "systemLanguageCode"@);
                let device_model = field::<String>(m, "deviceModel"@);
                let system_version = field::<String>(m, "systemVersion"@);
                let application_version = field::<String>(m, "applicationVersion"@);
                let enable_storage_optimizer = field::<bool>(m, "enableStorageOptimizer"@);
                let ignore_file_names = field::<bool>(m, "ignoreFileNames"@);
                if use_test_dc is Err {
                    use_test_dc
                } else if database_directory is Err {
                    database_directory
                } else if files_directory is Err {
                    files_directory
                } else if use_file_database is Err {
                    use_file_database
                } else if use_chat_info_database is Err {
                    use_chat_info_database
                } else if use_message_database is Err {
                    use_message_database
                } else if use_secret_chats is Err {
                    use_secret_chats
                } else if api_id is Err {
                    api_id
                } else if api_hash is Err {
                    api_hash
                } else if system_language_code is Err {
                    system_language_code
                } else if device_model is Err {
                    device_model
                } else if system_version is Err {
                    system_version
                } else if application_version is Err {
                    application_version
                } else if enable_storage_optimizer is Err {
                    enable_storage_optimizer
                } else if ignore_file_names is Err {
                    ignore_file_names
                } else {
                    Ok(
                        tagged(
                            Map::empty()
                                .insert("useTestDc"@, use_test_dc->Ok_0)
                                .insert("databaseDirectory"@, database_directory->Ok_0)
                                .insert("filesDirectory"@, files_directory->Ok_0)
                                .insert("useFileDatabase"@, use_file_database->Ok_0)
                                .insert("useChatInfoDatabase"@, use_chat_info_database->Ok_0)
                                .insert("useMessageDatabase"@, use_message_database->Ok_0)
                                .insert("useSecretChats"@, use_secret_chats->Ok_0)
                                .insert("apiId"@, api_id->Ok_0)
                                .insert("apiHash"@, api_hash->Ok_0)
                                .insert("systemLanguageCode"@, system_language_code->Ok_0)
                                .insert("deviceModel"@, device_model->Ok_0)
                                .insert("systemVersion"@, system_version->Ok_0)
                                .insert("applicationVersion"@, application_version->Ok_0)
                                .insert("enableStorageOptimizer"@, enable_storage_optimizer->Ok_0)
                                .insert("ignoreFileNames"@, ignore_file_names->Ok_0),
                            "tdlibParameters"@,
                        ),
                    )
                }
            },
            _ => Err(Fault::TypeMismatch(at)),
        }
    }

    fn encode(&self) -> (j: Json) {
        proof {
            reveal(<TdlibParameters as Wire>::wire);
        }
        let mut members: Vec<Member> = Vec::new();
        put(&mut members, "useTestDc", self.use_test_dc.encode());
        put(&mut members, "databaseDirectory", self.database_directory.encode());
        put(&mut members, "filesDirectory", self.files_directory.encode());
        put(&mut members, "useFileDatabase", self.use_file_database.encode());
        put(&mut members, "useChatInfoDatabase", self.use_chat_info_database.encode());
        put(&mut members, "useMessageDatabase", self.use_message_database.encode());
        put(&mut members, "useSecretChats", self.use_secret_chats.encode());
        put(&mut members, "apiId", self.api_id.encode());
        put(&mut members, "apiHash", self.api_hash.encode());
        put(&mut members, "systemLanguageCode", self.system_language_code.encode());
        put(&mut members, "deviceModel", self.device_model.encode());
        put(&mut members, "systemVersion", self.system_version.encode());
        put(&mut members, "applicationVersion", self.application_version.encode());
        put(&mut members, "enableStorageOptimizer", self.enable_storage_optimizer.encode());
        put(&mut members, "ignoreFileNames", self.ignore_file_names.encode());
        seal(members, "tdlibParameters")
    }

    fn decode(j: &Json, at: &str) -> (r: Result<Self, DecodeError>) {
        proof {
            reveal(<TdlibParameters as Wire>::wire);
            reveal(<TdlibParameters as Wire>::parse);
        }
        let members = members_of(j, at)?;
        let use_test_dc = read_field::<bool>(members, "useTestDc")?;
        let database_directory = read_field::<String>(members, "databaseDirectory")?;
        let files_directory = read_field::<String>(members, "filesDirectory")?;
        let use_file_database = read_field::<bool>(members, "useFileDatabase")?;
        let use_chat_info_database = read_field::<bool>(members, "useChatInfoDatabase")?;
        let use_message_database = read_field::<bool>(members, "useMessageDatabase")?;
        let use_secret_chats = read_field::<bool>(members, "useSecretChats")?;
        let api_id = read_field::<i32>(members, "apiId")?;
        let api_hash = read_field::<String>(members, "apiHash")?;
        let system_language_code = read_field::<String>(members, "systemLanguageCode")?;
        let device_model = read_field::<String>(members, "deviceModel")?;
        let system_version = read_field::<String>(members, "systemVersion")?;
        let application_version = read_field::<String>(members, "applicationVersion")?;
        let enable_storage_optimizer = read_field::<bool>(members, "enableStorageOptimizer")?;
        let ignore_file_names = read_field::<bool>(members, "ignoreFileNames")?;
        Ok(TdlibParameters {
            use_test_dc,
            database_directory,
            files_directory,
            use_file_database,
            use_chat_info_database,
            use_message_database,
            use_secret_chats,
            api_id,
            api_hash,
            system_language_code,
            device_model,
            system_version,
            application_version,
            enable_storage_optimizer,
            ignore_file_names,
        })
    }

    proof fn round_trip(&self, at: Seq<char>) {
        reveal(<TdlibParameters as Wire>::wire);
        reveal(<TdlibParameters as Wire>::parse);
        reveal_strlit("@type");
        reveal_strlit("apiHash");
        reveal_strlit("apiId");
        reveal_strlit("applicationVersion");
        reveal_strlit("databaseDirectory");
        reveal_strlit("deviceModel");
        reveal_strlit("enableStorageOptimizer");
        reveal_strlit("filesDirectory");
        reveal_strlit("ignoreFileNames");
        reveal_strlit("systemLanguageCode");
        reveal_strlit("systemVersion");
        reveal_strlit("useChatInfoDatabase");
        reveal_strlit("useFileDatabase");
        reveal_strlit("useMessageDatabase");
        reveal_strlit("useSecretChats");
        reveal_strlit("useTestDc");
        assert("@type"@.len() == 5 && "@type"@[0] == '@');
        assert("apiHash"@.len() == 7);
        assert("apiId"@.len() == 5 && "apiId"@[0] == 'a');
        assert("applicationVersion"@.len() == 18 && "applicationVersion"@[0] == 'a');
        assert("databaseDirectory"@.len() == 17);
        assert("deviceModel"@.len() == 11);
        assert("enableStorageOptimizer"@.len() == 22);
        assert("filesDirectory"@.len() == 14 && "filesDirectory"@[0] == 'f');
        assert("ignoreFileNames"@.len() == 15 && "ignoreFileNames"@[0] == 'i');
        assert("systemLanguageCode"@.len() == 18 && "systemLanguageCode"@[0] == 's');
        assert("systemVersion"@.len() == 13);
        assert("useChatInfoDatabase"@.len() == 19);
        assert("useFileDatabase"@.len() == 15 && "useFileDatabase"@[0] == 'u');
        assert("useMessageDatabase"@.len() == 18 && "useMessageDatabase"@[0] == 'u');
        assert("useSecretChats"@.len() == 14 && "useSecretChats"@[0] == 'u');
        assert("useTestDc"@.len() == 9);
        self.use_test_dc.round_trip("useTestDc"@);
        self.database_directory.round_trip("databaseDirectory"@);
        self.files_directory.round_trip("filesDirectory"@);
        self.use_file_database.round_trip("useFileDatabase"@);
        self.use_chat_info_database.round_trip("useChatInfoDatabase"@);
        self.use_message_database.round_trip("useMessageDatabase"@);
        self.use_secret_chats.round_trip("useSecretChats"@);
        self.api_id.round_trip("apiId"@);
        self.api_hash.round_trip("apiHash"@);
        self.system_language_code.round_trip("systemLanguageCode"@);
        self.device_model.round_trip("deviceModel"@);
        self.system_version.round_trip("systemVersion"@);
        self.application_version.round_trip("applicationVersion"@);
        self.enable_storage_optimizer.round_trip("enableStorageOptimizer"@);
        self.ignore_file_names.round_trip("ignoreFileNames"@);
        let m = self.wire()->Object_0;
        assert(field::<bool>(m, "useTestDc"@) == Ok::<Doc, Fault>(self.use_test_dc.wire()));
        assert(field::<String>(m, "databaseDirectory"@)
            == Ok::<Doc, Fault>(self.database_directory.wire()));
        assert(field::<String>(m, "filesDirectory"@)
            == Ok::<Doc, Fault>(self.files_directory.wire()));
        assert(field::<bool>(m, "useFileDatabase"@)
            == Ok::<Doc, Fault>(self.use_file_database.wire()));
        assert(field::<bool>(m, "useChatInfoDatabase"@)
            == Ok::<Doc, Fault>(self.use_chat_info_database.wire()));
        assert(field::<bool>(m, "useMessageDatabase"@)
            == Ok::<Doc, Fault>(self.use_message_database.wire()));
        assert(field::<bool>(m, "useSecretChats"@)
            == Ok::<Doc, Fault>(self.use_secret_chats.wire()));
        assert(field::<i32>(m, "apiId"@) == Ok::<Doc, Fault>(self.api_id.wire()));
        assert(field::<String>(m, "apiHash"@) == Ok::<Doc, Fault>(self.api_hash.wire()));
        assert(field::<String>(m, "systemLanguageCode"@)
            == Ok::<Doc, Fault>(self.system_language_code.wire()));
        assert(field::<String>(m, "deviceModel"@) == Ok::<Doc, Fault>(self.device_model.wire()));
        assert(field::<String>(m, "systemVersion"@)
            == Ok::<Doc, Fault>(self.system_version.wire()));
        assert(field::<String>(m, "applicationVersion"@)
            == Ok::<Doc, Fault>(self.application_version.wire()));
        assert(field::<bool>(m, "enableStorageOptimizer"@)
            == Ok::<Doc, Fault>(self.enable_storage_optimizer.wire()));
        assert(field::<bool>(m, "ignoreFileNames"@)
            == Ok::<Doc, Fault>(self.ignore_file_names.wire()));
    }
}

impl Tagged for TdlibParameters {
    open spec fn known(tag: Seq<char>) -> bool {
        tag == "tdlibParameters"@
    }

    fn knows(tag: &str) -> (r: bool) {
        same_text(tag, "tdlibParameters")
    }

    proof fn tag_known(&self) {
        reveal(<TdlibParameters as Wire>::wire);
        assert(tag_of(self.wire()) == Some("tdlibParameters"@));
        assert(Self::known("tdlibParameters"@));
    }
}

/// An authentication code is delivered via a private Telegram message, which can be viewed in
/// another client
#[derive(Debug, Clone, PartialEq)]
pub struct AuthenticationCodeTypeTelegramMessage {
    /// Length of the code
    pub length: i32,
}

impl Wire for AuthenticationCodeTypeTelegramMessage {
    #[verifier::opaque]
    open spec fn wire(&self) -> Doc {
        tagged(
            Map::empty()
                .insert("length"@, self.length.wire()),
            "authenticationCodeTypeTelegramMessage"@,
        )
    }

    #[verifier::opaque]
    open spec fn parse(d: Doc, at: Seq<char>) -> Result<Doc, Fault> {
        match d {
            Doc::Object(m) => {
                let length = field::<i32>(m, "length"@);
                if length is Err {
                    length
                } else {
                    Ok(
                        tagged(
                            Map::empty()
                                .insert("length"@, length->Ok_0),
                            "authenticationCodeTypeTelegramMessage"@,
                        ),
                    )
                }
            },
            _ => Err(Fault::TypeMismatch(at)),
        }
    }

    fn encode(&self) -> (j: Json) {
        proof {
            reveal(<AuthenticationCodeTypeTelegramMessage as Wire>::wire);
        }
        let mut members: Vec<Member> = Vec::new();
        put(&mut members, "length", self.length.encode());
        seal(members, "authenticationCodeTypeTelegramMessage")
    }

    fn decode(j: &Json, at: &str) -> (r: Result<Self, DecodeError>) {
        proof {
            reveal(<AuthenticationCodeTypeTelegramMessage as Wire>::wire);
            reveal(<AuthenticationCodeTypeTelegramMessage as Wire>::parse);
        }
        let members = members_of(j, at)?;
        let length = read_field::<i32>(members, "length")?;
        Ok(AuthenticationCodeTypeTelegramMessage { length })
    }

    proof fn round_trip(&self, at: Seq<char>) {
        reveal(<AuthenticationCodeTypeTelegramMessage as Wire>::wire);
        reveal(<AuthenticationCodeTypeTelegramMessage as Wire>::parse);
        reveal_strlit("@type");
        reveal_strlit("length");
        assert("@type"@.len() == 5);
        assert("length"@.len() == 6);
        self.length.round_trip("length"@);
    }
}

impl Tagged for AuthenticationCodeTypeTelegramMessage {
    open spec fn known(tag: Seq<char>) -> bool {
        tag == "authenticationCodeTypeTelegramMessage"@
    }

    fn knows(tag: &str) -> (r: bool) {
        same_text(tag, "authenticationCodeTypeTelegramMessage")
    }

    proof fn tag_known(&self) {
        reveal(<AuthenticationCodeTypeTelegramMessage as Wire>::wire);
        assert(tag_of(self.wire()) == Some("authenticationCodeTypeTelegramMessage"@));
        assert(Self::known("authenticationCodeTypeTelegramMessage"@));
    }
}

/// An authentication code is delivered via an SMS message to the specified phone number
#[derive(Debug, Clone, PartialEq)]
pub struct AuthenticationCodeTypeSms {
    /// Length of the code
    pub length: i32,
}

impl Wire for AuthenticationCodeTypeSms {
    #[verifier::opaque]
    open spec fn wire(&self) -> Doc {
        tagged(
            Map::empty()
                .insert("length"@, self.length.wire()),
            "authenticationCodeTypeSms"@,
        )
    }

    #[verifier::opaque]
    open spec fn parse(d: Doc, at: Seq<char>) -> Result<Doc, Fault> {
        match d {
            Doc::Object(m) => {
                let length = field::<i32>(m, "length"@);
                if length is Err {
                    length
                } else {
                    Ok(
                        tagged(
                            Map::empty()
                                .insert("length"@, length->Ok_0),
                            "authenticationCodeTypeSms"@,
                        ),
                    )
                }
            },
            _ => Err(Fault::TypeMismatch(at)),
        }
    }

    fn encode(&self) -> (j: Json) {
        proof {
            reveal(<AuthenticationCodeTypeSms as Wire>::wire);
        }
        let mut members: Vec<Member> = Vec::new();
        put(&mut members, "length", self.length.encode());
        seal(members, "authenticationCodeTypeSms")
    }

    fn decode(j: &Json, at: &str) -> (r: Result<Self, DecodeError>) {
        proof {
            reveal(<AuthenticationCodeTypeSms as Wire>::wire);
            reveal(<AuthenticationCodeTypeSms as Wire>::parse);
        }
        let members = members_of(j, at)?;
        let length = read_field::<i32>(members, "length")?;
        Ok(AuthenticationCodeTypeSms { length })
    }

    proof fn round_trip(&self, at: Seq<char>) {
        reveal(<AuthenticationCodeTypeSms as Wire>::wire);
        reveal(<AuthenticationCodeTypeSms as Wire>::parse);
        reveal_strlit("@type");
        reveal_strlit("length");
        assert("@type"@.len() == 5);
        assert("length"@.len() == 6);
        self.length.round_trip("length"@);
    }
}

impl Tagged for AuthenticationCodeTypeSms {
    open spec fn known(tag: Seq<char>) -> bool {
        tag == "authenticationCodeTypeSms"@
    }

    fn knows(tag: &str) -> (r: bool) {
        same_text(tag, "authenticationCodeTypeSms")
    }

    proof fn tag_known(&self) {
        reveal(<AuthenticationCodeTypeSms as Wire>::wire);
        assert(tag_of(self.wire()) == Some("authenticationCodeTypeSms"@));
        assert(Self::known("authenticationCodeTypeSms"@));
    }
}

/// An authentication code is delivered via a phone call to the specified phone number
#[derive(Debug, Clone, PartialEq)]
pub struct AuthenticationCodeTypeCall {
    /// Length of the code
    pub length: i32,
}

impl Wire for AuthenticationCodeTypeCall {
    #[verifier::opaque]
    open spec fn wire(&self) -> Doc {
        tagged(
            Map::empty()
                .insert("length"@, self.length.wire()),
            "authenticationCodeTypeCall"@,
        )
    }

    #[verifier::opaque]
    open spec fn parse(d: Doc, at: Seq<char>) -> Result<Doc, Fault> {
        match d {
            Doc::Object(m) => {
                let length = field::<i32>(m, "length"@);
                if length is Err {
                    length
                } else {
                    Ok(
                        tagged(
                            Map::empty()
                                .insert("length"@, length->Ok_0),
                            "authenticationCodeTypeCall"@,
                        ),
                    )
                }
            },
            _ => Err(Fault::TypeMismatch(at)),
        }
    }

    fn encode(&self) -> (j: Json) {
        proof {
            reveal(<AuthenticationCodeTypeCall as Wire>::wire);
        }
        let mut members: Vec<Member> = Vec::new();
        put(&mut members, "length", self.length.encode());
        seal(members, "authenticationCodeTypeCall")
    }

    fn decode(j: &Json, at: &str) -> (r: Result<Self, DecodeError>) {
        proof {
            reveal(<AuthenticationCodeTypeCall as Wire>::wire);
            reveal(<AuthenticationCodeTypeCall as Wire>::parse);
        }
        let members = members_of(j, at)?;
        let length = read_field::<i32>(members, "length")?;
        Ok(AuthenticationCodeTypeCall { length })
    }

    proof fn round_trip(&self, at: Seq<char>) {
        reveal(<AuthenticationCodeTypeCall as Wire>::wire);
        reveal(<AuthenticationCodeTypeCall as Wire>::parse);
        reveal_strlit("@type");
        reveal_strlit("length");
        assert("@type"@.len() == 5);
        assert("length"@.len() == 6);
        self.length.round_trip("length"@);
    }
}

impl Tagged for AuthenticationCodeTypeCall {
    open spec fn known(tag: Seq<char>) -> bool {
        tag == "authenticationCodeTypeCall"@
    }

    fn knows(tag: &str) -> (r: bool) {
        same_text(tag, "authenticationCodeTypeCall")
    }

    proof fn tag_known(&self) {
        reveal(<AuthenticationCodeTypeCall as Wire>::wire);
        assert(tag_of(self.wire()) == Some("authenticationCodeTypeCall"@));
        assert(Self::known("authenticationCodeTypeCall"@));
    }
}

/// An authentication code is delivered by an immediately cancelled call to the specified phone
/// number. The number from which the call was made is the code
#[derive(Debug, Clone, PartialEq)]
pub struct AuthenticationCodeTypeFlashCall {
    /// Pattern of the phone number from which the call will be made
    pub pattern: String,
}

impl Wire for AuthenticationCodeTypeFlashCall {
    #[verifier::opaque]
    open spec fn wire(&self) -> Doc {
        tagged(
            Map::empty()
                .insert("pattern"@, self.pattern.wire()),
            "authenticationCodeTypeFlashCall"@,
        )
    }

    #[verifier::opaque]
    open spec fn parse(d: Doc, at: Seq<char>) -> Result<Doc, Fault> {
        match d {
            Doc::Object(m) => {
                let pattern = field::<String>(m, "pattern"@);
                if pattern is Err {
                    pattern
                } else {
                    Ok(
                        tagged(
                            Map::empty()
                                .insert("pattern"@, pattern->Ok_0),
                            "authenticationCodeTypeFlashCall"@,
                        ),
                    )
                }
            },
            _ => Err(Fault::TypeMismatch(at)),
        }
    }

    fn encode(&self) -> (j: Json) {
        proof {
            reveal(<AuthenticationCodeTypeFlashCall as Wire>::wire);
        }
        let mut members: Vec<Member> = Vec::new();
        put(&mut members, "pattern", self.pattern.encode());
        seal(members, "authenticationCodeTypeFlashCall")
    }

    fn decode(j: &Json, at: &str) -> (r: Result<Self, DecodeError>) {
        proof {
            reveal(<AuthenticationCodeTypeFlashCall as Wire>::wire);
            reveal(<AuthenticationCodeTypeFlashCall as Wire>::parse);
        }
        let members = members_of(j, at)?;
        let pattern = read_field::<String>(members, "pattern")?;
        Ok(AuthenticationCodeTypeFlashCall { pattern })
    }

    proof fn round_trip(&self, at: Seq<char>) {
        reveal(<AuthenticationCodeTypeFlashCall as Wire>::wire);
        reveal(<AuthenticationCodeTypeFlashCall as Wire>::parse);
        reveal_strlit("@type");
        reveal_strlit("pattern");
        assert("@type"@.len() == 5);
        assert("pattern"@.len() == 7);
        self.pattern.round_trip("pattern"@);
    }
}

impl Tagged for AuthenticationCodeTypeFlashCall {
    open spec fn known(tag: Seq<char>) -> bool {
        tag == "authenticationCodeTypeFlashCall"@
    }

    fn knows(tag: &str) -> (r: bool) {
        same_text(tag, "authenticationCodeTypeFlashCall")
    }

    proof fn tag_known(&self) {
        reveal(<AuthenticationCodeTypeFlashCall as Wire>::wire);
        assert(tag_of(self.wire()) == Some("authenticationCodeTypeFlashCall"@));
        assert(Self::known("authenticationCodeTypeFlashCall"@));
    }
}

/// Provides information about the method by which an authentication code is delivered to the user
#[derive(Debug, Clone, PartialEq)]
pub enum AuthenticationCodeType {
    AuthenticationCodeTypeTelegramMessage(AuthenticationCodeTypeTelegramMessage),
    AuthenticationCodeTypeSms(AuthenticationCodeTypeSms),
    AuthenticationCodeTypeCall(AuthenticationCodeTypeCall),
    AuthenticationCodeTypeFlashCall(AuthenticationCodeTypeFlashCall),
}

impl Wire for AuthenticationCodeType {
    #[verifier::opaque]
    open spec fn wire(&self) -> Doc {
        match self {
            Self::AuthenticationCodeTypeTelegramMessage(p) => p.wire(),
            Self::AuthenticationCodeTypeSms(p) => p.wire(),
            Self::AuthenticationCodeTypeCall(p) => p.wire(),
            Self::AuthenticationCodeTypeFlashCall(p) => p.wire(),
        }
    }

    #[verifier::opaque]
    open spec fn parse(d: Doc, at: Seq<char>) -> Result<Doc, Fault> {
        match d {
            Doc::Object(_) => match tag_of(d) {
                Some(t) => if t == "authenticationCodeTypeTelegramMessage"@ {
                    AuthenticationCodeTypeTelegramMessage::parse(d, at)
                } else if t == "authenticationCodeTypeSms"@ {
                    AuthenticationCodeTypeSms::parse(d, at)
                } else if t == "authenticationCodeTypeCall"@ {
                    AuthenticationCodeTypeCall::parse(d, at)
                } else if t == "authenticationCodeTypeFlashCall"@ {
                    AuthenticationCodeTypeFlashCall::parse(d, at)
                } else {
                    Err(Fault::UnknownVariant(t))
                },
                None => Err(Fault::MissingDiscriminator),
            },
            _ => Err(Fault::TypeMismatch(at)),
        }
    }

    fn encode(&self) -> (j: Json) {
        proof {
            reveal(<AuthenticationCodeType as Wire>::wire);
        }
        match self {
            Self::AuthenticationCodeTypeTelegramMessage(p) => p.encode(),
            Self::AuthenticationCodeTypeSms(p) => p.encode(),
            Self::AuthenticationCodeTypeCall(p) => p.encode(),
            Self::AuthenticationCodeTypeFlashCall(p) => p.encode(),
        }
    }

    fn decode(j: &Json, at: &str) -> (r: Result<Self, DecodeError>) {
        proof {
            reveal(<AuthenticationCodeType as Wire>::wire);
            reveal(<AuthenticationCodeType as Wire>::parse);
        }
        let members = members_of(j, at)?;
        let tag = discriminator(members)?;
        if same_text(tag, "authenticationCodeTypeTelegramMessage") {
            Ok(
                Self::AuthenticationCodeTypeTelegramMessage(
                    AuthenticationCodeTypeTelegramMessage::decode(j, at)?,
                ),
            )
        } else if same_text(tag, "authenticationCodeTypeSms") {
            Ok(Self::AuthenticationCodeTypeSms(AuthenticationCodeTypeSms::decode(j, at)?))
        } else if same_text(tag, "authenticationCodeTypeCall") {
            Ok(Self::AuthenticationCodeTypeCall(AuthenticationCodeTypeCall::decode(j, at)?))
        } else if same_text(tag, "authenticationCodeTypeFlashCall") {
            Ok(
                Self::AuthenticationCodeTypeFlashCall(
                    AuthenticationCodeTypeFlashCall::decode(j, at)?,
                ),
            )
        } else {
            Err(DecodeError::UnknownVariant(tag.to_owned()))
        }
    }

    proof fn round_trip(&self, at: Seq<char>) {
        reveal(<AuthenticationCodeType as Wire>::wire);
        reveal(<AuthenticationCodeType as Wire>::parse);
        reveal_strlit("authenticationCodeTypeCall");
        reveal_strlit("authenticationCodeTypeFlashCall");
        reveal_strlit("authenticationCodeTypeSms");
        reveal_strlit("authenticationCodeTypeTelegramMessage");
        assert("authenticationCodeTypeCall"@.len() == 26);
        assert("authenticationCodeTypeFlashCall"@.len() == 31);
        assert("authenticationCodeTypeSms"@.len() == 25);
        assert("authenticationCodeTypeTelegramMessage"@.len() == 37);
        match self {
            Self::AuthenticationCodeTypeTelegramMessage(p) => {
                p.tag_known();
                p.round_trip(at);
            },
            Self::AuthenticationCodeTypeSms(p) => {
                p.tag_known();
                p.round_trip(at);
            },
            Self::AuthenticationCodeTypeCall(p) => {
                p.tag_known();
                p.round_trip(at);
            },
            Self::AuthenticationCodeTypeFlashCall(p) => {
                p.tag_known();
                p.round_trip(at);
            },
        }
    }
}

impl Tagged for AuthenticationCodeType {
    open spec fn known(tag: Seq<char>) -> bool {
        ||| tag == "authenticationCodeTypeTelegramMessage"@
        ||| tag == "authenticationCodeTypeSms"@
        ||| tag == "authenticationCodeTypeCall"@
        ||| tag == "authenticationCodeTypeFlashCall"@
    }

    fn knows(tag: &str) -> (r: bool) {
        same_text(tag, "authenticationCodeTypeTelegramMessage")
            || same_text(tag, "authenticationCodeTypeSms")
            || same_text(tag, "authenticationCodeTypeCall")
            || same_text(tag, "authenticationCodeTypeFlashCall")
    }

    proof fn tag_known(&self) {
        reveal(<AuthenticationCodeType as Wire>::wire);
        match self {
            Self::AuthenticationCodeTypeTelegramMessage(p) => p.tag_known(),
            Self::AuthenticationCodeTypeSms(p) => p.tag_known(),
            Self::AuthenticationCodeTypeCall(p) => p.tag_known(),
            Self::AuthenticationCodeTypeFlashCall(p) => p.tag_known(),
        }
    }
}

impl Union for AuthenticationCodeType {
    proof fn unknown_rejected(d: Doc, at: Seq<char>) {
        reveal(<AuthenticationCodeType as Wire>::parse);
    }

    proof fn untagged_rejected(d: Doc, at: Seq<char>) {
        reveal(<AuthenticationCodeType as Wire>::parse);
    }
}

/// Information about the authentication code that was sent
#[derive(Debug, Clone, PartialEq)]
pub struct AuthenticationCodeInfo {
    /// A phone number that is being authenticated
    pub phone_number: String,
    /// Describes the way the code was sent to the user
    pub type_: AuthenticationCodeType,
    /// Describes the way the next code will be sent to the user; may be null
    pub next_type: Option<AuthenticationCodeType>,
    /// Timeout before the code should be re-sent, in seconds
    pub timeout: i32,
}

impl Wire for AuthenticationCodeInfo {
    #[verifier::opaque]
    open spec fn wire(&self) -> Doc {
        tagged(
            Map::empty()
                .insert("phoneNumber"@, self.phone_number.wire())
                .insert("type"@, self.type_.wire())
                .insert("nextType"@, self.next_type.wire())
                .insert("timeout"@, self.timeout.wire()),
            "authenticationCodeInfo"@,
        )
    }

    #[verifier::opaque]
    open spec fn parse(d: Doc, at: Seq<char>) -> Result<Doc, Fault> {
        match d {
            Doc::Object(m) => {
                let phone_number = field::<String>(m, "phoneNumber"@);
                let type_ = field::<AuthenticationCodeType>(m, "type"@);
                let next_type = optional_field::<AuthenticationCodeType>(m, "nextType"@);
                let timeout = field::<i32>(m, "timeout"@);
                if phone_number is Err {
                    phone_number
                } else if type_ is Err {
                    type_
                } else if next_type is Err {
                    next_type
                } else if timeout is Err {
                    timeout
                } else {
                    Ok(
                        tagged(
                            Map::empty()
                                .insert("phoneNumber"@, phone_number->Ok_0)
                                .insert("type"@, type_->Ok_0)
                                .insert("nextType"@, next_type->Ok_0)
                                .insert("timeout"@, timeout->Ok_0),
                            "authenticationCodeInfo"@,
                        ),
                    )
                }
            },
            _ => Err(Fault::TypeMismatch(at)),
        }
    }

    fn encode(&self) -> (j: Json) {
        proof {
            reveal(<AuthenticationCodeInfo as Wire>::wire);
        }
        let mut members: Vec<Member> = Vec::new();
        put(&mut members, "phoneNumber", self.phone_number.encode());
        put(&mut members, "type", self.type_.encode());
        put(&mut members, "nextType", self.next_type.encode());
        put(&mut members, "timeout", self.timeout.encode());
        seal(members, "authenticationCodeInfo")
    }

    fn decode(j: &Json, at: &str) -> (r: Result<Self, DecodeError>) {
        proof {
            reveal(<AuthenticationCodeInfo as Wire>::wire);
            reveal(<AuthenticationCodeInfo as Wire>::parse);
        }
        let members = members_of(j, at)?;
        let phone_number = read_field::<String>(members, "phoneNumber")?;
        let type_ = read_field::<AuthenticationCodeType>(members, "type")?;
        let next_type = read_optional::<AuthenticationCodeType>(members, "nextType")?;
        let timeout = read_field::<i32>(members, "timeout")?;
        Ok(AuthenticationCodeInfo { phone_number, type_, next_type, timeout })
    }

    proof fn round_trip(&self, at: Seq<char>) {
        reveal(<AuthenticationCodeInfo as Wire>::wire);
        reveal(<AuthenticationCodeInfo as Wire>::parse);
        reveal_strlit("@type");
        reveal_strlit("nextType");
        reveal_strlit("phoneNumber");
        reveal_strlit("timeout");
        reveal_strlit("type");
        assert("@type"@.len() == 5);
        assert("nextType"@.len() == 8);
        assert("phoneNumber"@.len() == 11);
        assert("timeout"@.len() == 7);
        assert("type"@.len() == 4);
        self.phone_number.round_trip("phoneNumber"@);
        self.type_.round_trip("type"@);
        self.next_type.round_trip("nextType"@);
        self.timeout.round_trip("timeout"@);
    }
}

impl Tagged for AuthenticationCodeInfo {
    open spec fn known(tag: Seq<char>) -> bool {
        tag == "authenticationCodeInfo"@
    }

    fn knows(tag: &str) -> (r: bool) {
        same_text(tag, "authenticationCodeInfo")
    }

    proof fn tag_known(&self) {
        reveal(<AuthenticationCodeInfo as Wire>::wire);
        assert(tag_of(self.wire()) == Some("authenticationCodeInfo"@));
        assert(Self::known("authenticationCodeInfo"@));
    }
}

/// Information about the email address authentication code that was sent
#[derive(Debug, Clone, PartialEq)]
pub struct EmailAddressAuthenticationCodeInfo {
    /// Pattern of the email address to which an authentication code was sent
    pub email_address_pattern: String,
    /// Length of the code; 0 if unknown
    pub length: i32,
}

impl Wire for EmailAddressAuthenticationCodeInfo {
    #[verifier::opaque]
    open spec fn wire(&self) -> Doc {
        tagged(
            Map::empty()
                .insert("emailAddressPattern"@, self.email_address_pattern.wire())
                .insert("length"@, self.length.wire()),
            "emailAddressAuthenticationCodeInfo"@,
        )
    }

    #[verifier::opaque]
    open spec fn parse(d: Doc, at: Seq<char>) -> Result<Doc, Fault> {
        match d {
            Doc::Object(m) => {
                let email_address_pattern = field::<String>(m, "emailAddressPattern"@);
                let length = field::<i32>(m, "length"@);
                if email_address_pattern is Err {
                    email_address_pattern
                } else if length is Err {
                    length
                } else {
                    Ok(
                        tagged(
                            Map::empty()
                                .insert("emailAddressPattern"@, email_address_pattern->Ok_0)
                                .insert("length"@, length->Ok_0),
                            "emailAddressAuthenticationCodeInfo"@,
                        ),
                    )
                }
            },
            _ => Err(Fault::TypeMismatch(at)),
        }
    }

    fn encode(&self) -> (j: Json) {
        proof {
            reveal(<EmailAddressAuthenticationCodeInfo as Wire>::wire);
        }
        let mut members: Vec<Member> = Vec::new();
        put(&mut members, "emailAddressPattern", self.email_address_pattern.encode());
        put(&mut members, "length", self.length.encode());
        seal(members, "emailAddressAuthenticationCodeInfo")
    }

    fn decode(j: &Json, at: &str) -> (r: Result<Self, DecodeError>) {
        proof {
            reveal(<EmailAddressAuthenticationCodeInfo as Wire>::wire);
            reveal(<EmailAddressAuthenticationCodeInfo as Wire>::parse);
        }
        let members = members_of(j, at)?;
        let email_address_pattern = read_field::<String>(members, "emailAddressPattern")?;
        let length = read_field::<i32>(members, "length")?;
        Ok(EmailAddressAuthenticationCodeInfo { email_address_pattern, length })
    }

    proof fn round_trip(&self, at: Seq<char>) {
        reveal(<EmailAddressAuthenticationCodeInfo as Wire>::wire);
        reveal(<EmailAddressAuthenticationCodeInfo as Wire>::parse);
        reveal_strlit("@type");
        reveal_strlit("emailAddressPattern");
        reveal_strlit("length");
        assert("@type"@.len() == 5);
        assert("emailAddressPattern"@.len() == 19);
        assert("length"@.len() == 6);
        self.email_address_pattern.round_trip("emailAddressPattern"@);
        self.length.round_trip("length"@);
    }
}

impl Tagged for EmailAddressAuthenticationCodeInfo {
    open spec fn known(tag: Seq<char>) -> bool {
        tag == "emailAddressAuthenticationCodeInfo"@
    }

    fn knows(tag: &str) -> (r: bool) {
        same_text(tag, "emailAddressAuthenticationCodeInfo")
    }

    proof fn tag_known(&self) {
        reveal(<EmailAddressAuthenticationCodeInfo as Wire>::wire);
        assert(tag_of(self.wire()) == Some("emailAddressAuthenticationCodeInfo"@));
        assert(Self::known("emailAddressAuthenticationCodeInfo"@));
    }
}

/// Represents a part of the text that needs to be formatted in some unusual way
#[derive(Debug, Clone, PartialEq)]
pub struct TextEntity {
    /// Offset of the entity in UTF-16 code units
    pub offset: i32,
    /// Length of the entity, in UTF-16 code units
    pub length: i32,
    /// Type of the entity
    pub type_: TextEntityType,
}

impl Wire for TextEntity {
    #[verifier::opaque]
    open spec fn wire(&self) -> Doc {
        tagged(
            Map::empty()
                .insert("offset"@, self.offset.wire())
                .insert("length"@, self.length.wire())
                .insert("type"@, self.type_.wire()),
            "textEntity"@,
        )
    }

    #[verifier::opaque]
    open spec fn parse(d: Doc, at: Seq<char>) -> Result<Doc, Fault> {
        match d {
            Doc::Object(m) => {
                let offset = field::<i32>(m, "offset"@);
                let length = field::<i32>(m, "length"@);
                let type_ = field::<TextEntityType>(m, "type"@);
                if offset is Err {
                    offset
                } else if length is Err {
                    length
                } else if type_ is Err {
                    type_
                } else {
                    Ok(
                        tagged(
                            Map::empty()
                                .insert("offset"@, offset->Ok_0)
                                .insert("length"@, length->Ok_0)
                                .insert("type"@, type_->Ok_0),
                            "textEntity"@,
                        ),
                    )
                }
            },
            _ => Err(Fault::TypeMismatch(at)),
        }
    }

    fn encode(&self) -> (j: Json) {
        proof {
            reveal(<TextEntity as Wire>::wire);
        }
        let mut members: Vec<Member> = Vec::new();
        put(&mut members, "offset", self.offset.encode());
        put(&mut members, "length", self.length.encode());
        put(&mut members, "type", self.type_.encode());
        seal(members, "textEntity")
    }

    fn decode(j: &Json, at: &str) -> (r: Result<Self, DecodeError>) {
        proof {
            reveal(<TextEntity as Wire>::wire);
            reveal(<TextEntity as Wire>::parse);
        }
        let members = members_of(j, at)?;
        let offset = read_field::<i32>(members, "offset")?;
        let length = read_field::<i32>(members, "length")?;
        let type_ = read_field::<TextEntityType>(members, "type")?;
        Ok(TextEntity { offset, length, type_ })
    }

    proof fn round_trip(&self, at: Seq<char>) {
        reveal(<TextEntity as Wire>::wire);
        reveal(<TextEntity as Wire>::parse);
        reveal_strlit("@type");
        reveal_strlit("length");
        reveal_strlit("offset");
        reveal_strlit("type");
        assert("@type"@.len() == 5);
        assert("length"@.len() == 6 && "length"@[0] == 'l');
        assert("offset"@.len() == 6 && "offset"@[0] == 'o');
        assert("type"@.len() == 4);
        self.offset.round_trip("offset"@);
        self.length.round_trip("length"@);
        self.type_.round_trip("type"@);
    }
}

impl Tagged for TextEntity {
    open spec fn known(tag: Seq<char>) -> bool {
        tag == "textEntity"@
    }

    fn knows(tag: &str) -> (r: bool) {
        same_text(tag, "textEntity")
    }

    proof fn tag_known(&self) {
        reveal(<TextEntity as Wire>::wire);
        assert(tag_of(self.wire()) == Some("textEntity"@));
        assert(Self::known("textEntity"@));
    }
}

/// Contains a list of text entities
#[derive(Debug, Clone, PartialEq)]
pub struct TextEntities {
    /// List of text entities
    pub entities: Vec<TextEntity>,
}

impl Wire for TextEntities {
    #[verifier::opaque]
    open spec fn wire(&self) -> Doc {
        tagged(
            Map::empty()
                .insert("entities"@, self.entities.wire()),
            "textEntities"@,
        )
    }

    #[verifier::opaque]
    open spec fn parse(d: Doc, at: Seq<char>) -> Result<Doc, Fault> {
        match d {
            Doc::Object(m) => {
                let entities = field::<Vec<TextEntity>>(m, "entities"@);
                if entities is Err {
                    entities
                } else {
                    Ok(
                        tagged(
                            Map::empty()
                                .insert("entities"@, entities->Ok_0),
                            "textEntities"@,
                        ),
                    )
                }
            },
            _ => Err(Fault::TypeMismatch(at)),
        }
    }

    fn encode(&self) -> (j: Json) {
        proof {
            reveal(<TextEntities as Wire>::wire);
        }
        let mut members: Vec<Member> = Vec::new();
        put(&mut members, "entities", self.entities.encode());
        seal(members, "textEntities")
    }

    fn decode(j: &Json, at: &str) -> (r: Result<Self, DecodeError>) {
        proof {
            reveal(<TextEntities as Wire>::wire);
            reveal(<TextEntities as Wire>::parse);
        }
        let members = members_of(j, at)?;
        let entities = read_field::<Vec<TextEntity>>(members, "entities")?;
        Ok(TextEntities { entities })
    }

    proof fn round_trip(&self, at: Seq<char>) {
        reveal(<TextEntities as Wire>::wire);
        reveal(<TextEntities as Wire>::parse);
        reveal_strlit("@type");
        reveal_strlit("entities");
        assert("@type"@.len() == 5);
        assert("entities"@.len() == 8);
        self.entities.round_trip("entities"@);
    }
}

impl Tagged for TextEntities {
    open spec fn known(tag: Seq<char>) -> bool {
        tag == "textEntities"@
    }

    fn knows(tag: &str) -> (r: bool) {
        same_text(tag, "textEntities")
    }

    proof fn tag_known(&self) {
        reveal(<TextEntities as Wire>::wire);
        assert(tag_of(self.wire()) == Some("textEntities"@));
        assert(Self::known("textEntities"@));
    }
}

/// A text with some entities
#[derive(Debug, Clone, PartialEq)]
pub struct FormattedText {
    /// The text
    pub text: String,
    /// Entities contained in the text. Entities can be nested, but must not mutually intersect with
    /// each other. Pre, Code and PreCode entities can't contain other entities. Bold, Italic,
    /// Underline and Strikethrough entities can contain and to be contained in all other entities.
    /// All other entities can't contain each other
    pub entities: Vec<TextEntity>,
}

impl Wire for FormattedText {
    #[verifier::opaque]
    open spec fn wire(&self) -> Doc {
        tagged(
            Map::empty()
                .insert("text"@, self.text.wire())
                .insert("entities"@, self.entities.wire()),
            "formattedText"@,
        )
    }

    #[verifier::opaque]
    open spec fn parse(d: Doc, at: Seq<char>) -> Result<Doc, Fault> {
        match d {
            Doc::Object(m) => {
                let text = field::<String>(m, "text"@);
                let entities = field::<Vec<TextEntity>>(m, "entities"@);
                if text is Err {
                    text
                } else if entities is Err {
                    entities
                } else {
                    Ok(
                        tagged(
                            Map::empty()
                                .insert("text"@, text->Ok_0)
                                .insert("entities"@, entities->Ok_0),
                            "formattedText"@,
                        ),
                    )
                }
            },
            _ => Err(Fault::TypeMismatch(at)),
        }
    }

    fn encode(&self) -> (j: Json) {
        proof {
            reveal(<FormattedText as Wire>::wire);
        }
        let mut members: Vec<Member> = Vec::new();
        put(&mut members, "text", self.text.encode());
        put(&mut members, "entities", self.entities.encode());
        seal(members, "formattedText")
    }

    fn decode(j: &Json, at: &str) -> (r: Result<Self, DecodeError>) {
        proof {
            reveal(<FormattedText as Wire>::wire);
            reveal(<FormattedText as Wire>::parse);
        }
        let members = members_of(j, at)?;
        let text = read_field::<String>(members, "text")?;
        let entities = read_field::<Vec<TextEntity>>(members, "entities")?;
        Ok(FormattedText { text, entities })
    }

    proof fn round_trip(&self, at: Seq<char>) {
        reveal(<FormattedText as Wire>::wire);
        reveal(<FormattedText as Wire>::parse);
        reveal_strlit("@type");
        reveal_strlit("entities");
        reveal_strlit("text");
        assert("@type"@.len() == 5);
        assert("entities"@.len() == 8);
        assert("text"@.len() == 4);
        self.text.round_trip("text"@);
        self.entities.round_trip("entities"@);
    }
}

impl Tagged for FormattedText {
    open spec fn known(tag: Seq<char>) -> bool {
        tag == "formattedText"@
    }

    fn knows(tag: &str) -> (r: bool) {
        same_text(tag, "formattedText")
    }

    proof fn tag_known(&self) {
        reveal(<FormattedText as Wire>::wire);
        assert(tag_of(self.wire()) == Some("formattedText"@));
        assert(Self::known("formattedText"@));
    }
}

/// Contains Telegram terms of service
#[derive(Debug, Clone, PartialEq)]
pub struct TermsOfService {
    /// Text of the terms of service
    pub text: FormattedText,
    /// The minimum age of a user to be able to accept the terms; 0 if any
    pub min_user_age: i32,
    /// True, if a blocking popup with terms of service must be shown to the user
    pub show_popup: bool,
}

impl Wire for TermsOfService {
    #[verifier::opaque]
    open spec fn wire(&self) -> Doc {
        tagged(
            Map::empty()
                .insert("text"@, self.text.wire())
                .insert("minUserAge"@, self.min_user_age.wire())
                .insert("showPopup"@, self.show_popup.wire()),
            "termsOfService"@,
        )
    }

    #[verifier::opaque]
    open spec fn parse(d: Doc, at: Seq<char>) -> Result<Doc, Fault> {
        match d {
            Doc::Object(m) => {
                let text = field::<FormattedText>(m, "text"@);
                let min_user_age = field::<i32>(m, "minUserAge"@);
                let show_popup = field::<bool>(m, "showPopup"@);
                if text is Err {
                    text
                } else if min_user_age is Err {
                    min_user_age
                } else if show_popup is Err {
                    show_popup
                } else {
                    Ok(
                        tagged(
                            Map::empty()
                                .insert("text"@, text->Ok_0)
                                .insert("minUserAge"@, min_user_age->Ok_0)
                                .insert("showPopup"@, show_popup->Ok_0),
                            "termsOfService"@,
                        ),
                    )
                }
            },
            _ => Err(Fault::TypeMismatch(at)),
        }
    }

    fn encode(&self) -> (j: Json) {
        proof {
            reveal(<TermsOfService as Wire>::wire);
        }
        let mut members: Vec<Member> = Vec::new();
        put(&mut members, "text", self.text.encode());
        put(&mut members, "minUserAge", self.min_user_age.encode());
        put(&mut members, "showPopup", self.show_popup.encode());
        seal(members, "termsOfService")
    }

    fn decode(j: &Json, at: &str) -> (r: Result<Self, DecodeError>) {
        proof {
            reveal(<TermsOfService as Wire>::wire);
            reveal(<TermsOfService as Wire>::parse);
        }
        let members = members_of(j, at)?;
        let text = read_field::<FormattedText>(members, "text")?;
        let min_user_age = read_field::<i32>(members, "minUserAge")?;
        let show_popup = read_field::<bool>(members, "showPopup")?;
        Ok(TermsOfService { text, min_user_age, show_popup })
    }

    proof fn round_trip(&self, at: Seq<char>) {
        reveal(<TermsOfService as Wire>::wire);
        reveal(<TermsOfService as Wire>::parse);
        reveal_strlit("@type");
        reveal_strlit("minUserAge");
        reveal_strlit("showPopup");
        reveal_strlit("text");
        assert("@type"@.len() == 5);
        assert("minUserAge"@.len() == 10);
        assert("showPopup"@.len() == 9);
        assert("text"@.len() == 4);
        self.text.round_trip("text"@);
        self.min_user_age.round_trip("minUserAge"@);
        self.show_popup.round_trip("showPopup"@);
    }
}

impl Tagged for TermsOfService {
    open spec fn known(tag: Seq<char>) -> bool {
        tag == "termsOfService"@
    }

    fn knows(tag: &str) -> (r: bool) {
        same_text(tag, "termsOfService")
    }

    proof fn tag_known(&self) {
        reveal(<TermsOfService as Wire>::wire);
        assert(tag_of(self.wire()) == Some("termsOfService"@));
        assert(Self::known("termsOfService"@));
    }
}

/// TDLib needs TdlibParameters for initialization
#[derive(Debug, Clone, PartialEq)]
pub struct AuthorizationStateWaitTdlibParameters {}

impl Wire for AuthorizationStateWaitTdlibParameters {
    #[verifier::opaque]
    open spec fn wire(&self) -> Doc {
        tagged(Map::empty(), "authorizationStateWaitTdlibParameters"@)
    }

    #[verifier::opaque]
    open spec fn parse(d: Doc, at: Seq<char>) -> Result<Doc, Fault> {
        match d {
            Doc::Object(_) => Ok(tagged(Map::empty(), "authorizationStateWaitTdlibParameters"@)),
            _ => Err(Fault::TypeMismatch(at)),
        }
    }

    fn encode(&self) -> (j: Json) {
        proof {
            reveal(<AuthorizationStateWaitTdlibParameters as Wire>::wire);
        }
        seal(Vec::new(), "authorizationStateWaitTdlibParameters")
    }

    fn decode(j: &Json, at: &str) -> (r: Result<Self, DecodeError>) {
        proof {
            reveal(<AuthorizationStateWaitTdlibParameters as Wire>::wire);
            reveal(<AuthorizationStateWaitTdlibParameters as Wire>::parse);
        }
        let _ = members_of(j, at)?;
        Ok(AuthorizationStateWaitTdlibParameters {})
    }

    proof fn round_trip(&self, at: Seq<char>) {
        reveal(<AuthorizationStateWaitTdlibParameters as Wire>::wire);
        reveal(<AuthorizationStateWaitTdlibParameters as Wire>::parse);
    }
}

impl Tagged for AuthorizationStateWaitTdlibParameters {
    open spec fn known(tag: Seq<char>) -> bool {
        tag == "authorizationStateWaitTdlibParameters"@
    }

    fn knows(tag: &str) -> (r: bool) {
        same_text(tag, "authorizationStateWaitTdlibParameters")
    }

    proof fn tag_known(&self) {
        reveal(<AuthorizationStateWaitTdlibParameters as Wire>::wire);
        assert(tag_of(self.wire()) == Some("authorizationStateWaitTdlibParameters"@));
        assert(Self::known("authorizationStateWaitTdlibParameters"@));
    }
}

/// TDLib needs an encryption key to decrypt the local database
#[derive(Debug, Clone, PartialEq)]
pub struct AuthorizationStateWaitEncryptionKey {
    /// True, if the database is currently encrypted
    pub is_encrypted: bool,
}

impl Wire for AuthorizationStateWaitEncryptionKey {
    #[verifier::opaque]
    open spec fn wire(&self) -> Doc {
        tagged(
            Map::empty()
                .insert("isEncrypted"@, self.is_encrypted.wire()),
            "authorizationStateWaitEncryptionKey"@,
        )
    }

    #[verifier::opaque]
    open spec fn parse(d: Doc, at: Seq<char>) -> Result<Doc, Fault> {
        match d {
            Doc::Object(m) => {
                let is_encrypted = field::<bool>(m, "isEncrypted"@);
                if is_encrypted is Err {
                    is_encrypted
                } else {
                    Ok(
                        tagged(
                            Map::empty()
                                .insert("isEncrypted"@, is_encrypted->Ok_0),
                            "authorizationStateWaitEncryptionKey"@,
                        ),
                    )
                }
            },
            _ => Err(Fault::TypeMismatch(at)),
        }
    }

    fn encode(&self) -> (j: Json) {
        proof {
            reveal(<AuthorizationStateWaitEncryptionKey as Wire>::wire);
        }
        let mut members: Vec<Member> = Vec::new();
        put(&mut members, "isEncrypted", self.is_encrypted.encode());
        seal(members, "authorizationStateWaitEncryptionKey")
    }

    fn decode(j: &Json, at: &str) -> (r: Result<Self, DecodeError>) {
        proof {
            reveal(<AuthorizationStateWaitEncryptionKey as Wire>::wire);
            reveal(<AuthorizationStateWaitEncryptionKey as Wire>::parse);
        }
        let members = members_of(j, at)?;
        let is_encrypted = read_field::<bool>(members, "isEncrypted")?;
        Ok(AuthorizationStateWaitEncryptionKey { is_encrypted })
    }

    proof fn round_trip(&self, at: Seq<char>) {
        reveal(<AuthorizationStateWaitEncryptionKey as Wire>::wire);
        reveal(<AuthorizationStateWaitEncryptionKey as Wire>::parse);
        reveal_strlit("@type");
        reveal_strlit("isEncrypted");
        assert("@type"@.len() == 5);
        assert("isEncrypted"@.len() == 11);
        self.is_encrypted.round_trip("isEncrypted"@);
    }
}

impl Tagged for AuthorizationStateWaitEncryptionKey {
    open spec fn known(tag: Seq<char>) -> bool {
        tag == "authorizationStateWaitEncryptionKey"@
    }

    fn knows(tag: &str) -> (r: bool) {
        same_text(tag, "authorizationStateWaitEncryptionKey")
    }

    proof fn tag_known(&self) {
        reveal(<AuthorizationStateWaitEncryptionKey as Wire>::wire);
        assert(tag_of(self.wire()) == Some("authorizationStateWaitEncryptionKey"@));
        assert(Self::known("authorizationStateWaitEncryptionKey"@));
    }
}

/// TDLib needs the user's phone number to authorize. Call `setAuthenticationPhoneNumber` to provide
/// the phone number, or use `requestQrCodeAuthentication`, or `checkAuthenticationBotToken` for
/// other authentication options
#[derive(Debug, Clone, PartialEq)]
pub struct AuthorizationStateWaitPhoneNumber {}

impl Wire for AuthorizationStateWaitPhoneNumber {
    #[verifier::opaque]
    open spec fn wire(&self) -> Doc {
        tagged(Map::empty(), "authorizationStateWaitPhoneNumber"@)
    }

    #[verifier::opaque]
    open spec fn parse(d: Doc, at: Seq<char>) -> Result<Doc, Fault> {
        match d {
            Doc::Object(_) => Ok(tagged(Map::empty(), "authorizationStateWaitPhoneNumber"@)),
            _ => Err(Fault::TypeMismatch(at)),
        }
    }

    fn encode(&self) -> (j: Json) {
        proof {
            reveal(<AuthorizationStateWaitPhoneNumber as Wire>::wire);
        }
        seal(Vec::new(), "authorizationStateWaitPhoneNumber")
    }

    fn decode(j: &Json, at: &str) -> (r: Result<Self, DecodeError>) {
        proof {
            reveal(<AuthorizationStateWaitPhoneNumber as Wire>::wire);
            reveal(<AuthorizationStateWaitPhoneNumber as Wire>::parse);
        }
        let _ = members_of(j, at)?;
        Ok(AuthorizationStateWaitPhoneNumber {})
    }

    proof fn round_trip(&self, at: Seq<char>) {
        reveal(<AuthorizationStateWaitPhoneNumber as Wire>::wire);
        reveal(<AuthorizationStateWaitPhoneNumber as Wire>::parse);
    }
}

impl Tagged for AuthorizationStateWaitPhoneNumber {
    open spec fn known(tag: Seq<char>) -> bool {
        tag == "authorizationStateWaitPhoneNumber"@
    }

    fn knows(tag: &str) -> (r: bool) {
        same_text(tag, "authorizationStateWaitPhoneNumber")
    }

    proof fn tag_known(&self) {
        reveal(<AuthorizationStateWaitPhoneNumber as Wire>::wire);
        assert(tag_of(self.wire()) == Some("authorizationStateWaitPhoneNumber"@));
        assert(Self::known("authorizationStateWaitPhoneNumber"@));
    }
}

/// TDLib needs the user's authentication code to authorize
#[derive(Debug, Clone, PartialEq)]
pub struct AuthorizationStateWaitCode {
    /// Information about the authorization code that was sent
    pub code_info: AuthenticationCodeInfo,
}

impl Wire for AuthorizationStateWaitCode {
    #[verifier::opaque]
    open spec fn wire(&self) -> Doc {
        tagged(
            Map::empty()
                .insert("codeInfo"@, self.code_info.wire()),
            "authorizationStateWaitCode"@,
        )
    }

    #[verifier::opaque]
    open spec fn parse(d: Doc, at: Seq<char>) -> Result<Doc, Fault> {
        match d {
            Doc::Object(m) => {
                let code_info = field::<AuthenticationCodeInfo>(m, "codeInfo"@);
                if code_info is Err {
                    code_info
                } else {
                    Ok(
                        tagged(
                            Map::empty()
                                .insert("codeInfo"@, code_info->Ok_0),
                            "authorizationStateWaitCode"@,
                        ),
                    )
                }
            },
            _ => Err(Fault::TypeMismatch(at)),
        }
    }

    fn encode(&self) -> (j: Json) {
        proof {
            reveal(<AuthorizationStateWaitCode as Wire>::wire);
        }
        let mut members: Vec<Member> = Vec::new();
        put(&mut members, "codeInfo", self.code_info.encode());
        seal(members, "authorizationStateWaitCode")
    }

    fn decode(j: &Json, at: &str) -> (r: Result<Self, DecodeError>) {
        proof {
            reveal(<AuthorizationStateWaitCode as Wire>::wire);
            reveal(<AuthorizationStateWaitCode as Wire>::parse);
        }
        let members = members_of(j, at)?;
        let code_info = read_field::<AuthenticationCodeInfo>(members, "codeInfo")?;
        Ok(AuthorizationStateWaitCode { code_info })
    }

    proof fn round_trip(&self, at: Seq<char>) {
        reveal(<AuthorizationStateWaitCode as Wire>::wire);
        reveal(<AuthorizationStateWaitCode as Wire>::parse);
        reveal_strlit("@type");
        reveal_strlit("codeInfo");
        assert("@type"@.len() == 5);
        assert("codeInfo"@.len() == 8);
        self.code_info.round_trip("codeInfo"@);
    }
}

impl Tagged for AuthorizationStateWaitCode {
    open spec fn known(tag: Seq<char>) -> bool {
        tag == "authorizationStateWaitCode"@
    }

    fn knows(tag: &str) -> (r: bool) {
        same_text(tag, "authorizationStateWaitCode")
    }

    proof fn tag_known(&self) {
        reveal(<AuthorizationStateWaitCode as Wire>::wire);
        assert(tag_of(self.wire()) == Some("authorizationStateWaitCode"@));
        assert(Self::known("authorizationStateWaitCode"@));
    }
}

/// The user needs to confirm authorization on another logged in device by scanning a QR code with
/// the provided link
#[derive(Debug, Clone, PartialEq)]
pub struct AuthorizationStateWaitOtherDeviceConfirmation {
    /// A tg:// URL for the QR code. The link will be updated frequently
    pub link: String,
}

impl Wire for AuthorizationStateWaitOtherDeviceConfirmation {
    #[verifier::opaque]
    open spec fn wire(&self) -> Doc {
        tagged(
            Map::empty()
                .insert("link"@, self.link.wire()),
            "authorizationStateWaitOtherDeviceConfirmation"@,
        )
    }

    #[verifier::opaque]
    open spec fn parse(d: Doc, at: Seq<char>) -> Result<Doc, Fault> {
        match d {
            Doc::Object(m) => {
                let link = field::<String>(m, "link"@);
                if link is Err {
                    link
                } else {
                    Ok(
                        tagged(
                            Map::empty()
                                .insert("link"@, link->Ok_0),
                            "authorizationStateWaitOtherDeviceConfirmation"@,
                        ),
                    )
                }
            },
            _ => Err(Fault::TypeMismatch(at)),
        }
    }

    fn encode(&self) -> (j: Json) {
        proof {
            reveal(<AuthorizationStateWaitOtherDeviceConfirmation as Wire>::wire);
        }
        let mut members: Vec<Member> = Vec::new();
        put(&mut members, "link", self.link.encode());
        seal(members, "authorizationStateWaitOtherDeviceConfirmation")
    }

    fn decode(j: &Json, at: &str) -> (r: Result<Self, DecodeError>) {
        proof {
            reveal(<AuthorizationStateWaitOtherDeviceConfirmation as Wire>::wire);
            reveal(<AuthorizationStateWaitOtherDeviceConfirmation as Wire>::parse);
        }
        let members = members_of(j, at)?;
        let link = read_field::<String>(members, "link")?;
        Ok(AuthorizationStateWaitOtherDeviceConfirmation { link })
    }

    proof fn round_trip(&self, at: Seq<char>) {
        reveal(<AuthorizationStateWaitOtherDeviceConfirmation as Wire>::wire);
        reveal(<AuthorizationStateWaitOtherDeviceConfirmation as Wire>::parse);
        reveal_strlit("@type");
        reveal_strlit("link");
        assert("@type"@.len() == 5);
        assert("link"@.len() == 4);
        self.link.round_trip("link"@);
    }
}

impl Tagged for AuthorizationStateWaitOtherDeviceConfirmation {
    open spec fn known(tag: Seq<char>) -> bool {
        tag == "authorizationStateWaitOtherDeviceConfirmation"@
    }

    fn knows(tag: &str) -> (r: bool) {
        same_text(tag, "authorizationStateWaitOtherDeviceConfirmation")
    }

    proof fn tag_known(&self) {
        reveal(<AuthorizationStateWaitOtherDeviceConfirmation as Wire>::wire);
        assert(tag_of(self.wire()) == Some("authorizationStateWaitOtherDeviceConfirmation"@));
        assert(Self::known("authorizationStateWaitOtherDeviceConfirmation"@));
    }
}

/// The user is unregistered and need to accept terms of service and enter their first name and last
/// name to finish registration
#[derive(Debug, Clone, PartialEq)]
pub struct AuthorizationStateWaitRegistration {
    /// Telegram terms of service
    pub terms_of_service: TermsOfService,
}

impl Wire for AuthorizationStateWaitRegistration {
    #[verifier::opaque]
    open spec fn wire(&self) -> Doc {
        tagged(
            Map::empty()
                .insert("termsOfService"@, self.terms_of_service.wire()),
            "authorizationStateWaitRegistration"@,
        )
    }

    #[verifier::opaque]
    open spec fn parse(d: Doc, at: Seq<char>) -> Result<Doc, Fault> {
        match d {
            Doc::Object(m) => {
                let terms_of_service = field::<TermsOfService>(m, "termsOfService"@);
                if terms_of_service is Err {
                    terms_of_service
                } else {
                    Ok(
                        tagged(
                            Map::empty()
                                .insert("termsOfService"@, terms_of_service->Ok_0),
                            "authorizationStateWaitRegistration"@,
                        ),
                    )
                }
            },
            _ => Err(Fault::TypeMismatch(at)),
        }
    }

    fn encode(&self) -> (j: Json) {
        proof {
            reveal(<AuthorizationStateWaitRegistration as Wire>::wire);
        }
        let mut members: Vec<Member> = Vec::new();
        put(&mut members, "termsOfService", self.terms_of_service.encode());
        seal(members, "authorizationStateWaitRegistration")
    }

    fn decode(j: &Json, at: &str) -> (r: Result<Self, DecodeError>) {
        proof {
            reveal(<AuthorizationStateWaitRegistration as Wire>::wire);
            reveal(<AuthorizationStateWaitRegistration as Wire>::parse);
        }
        let members = members_of(j, at)?;
        let terms_of_service = read_field::<TermsOfService>(members, "termsOfService")?;
        Ok(AuthorizationStateWaitRegistration { terms_of_service })
    }

    proof fn round_trip(&self, at: Seq<char>) {
        reveal(<AuthorizationStateWaitRegistration as Wire>::wire);
        reveal(<AuthorizationStateWaitRegistration as Wire>::parse);
        reveal_strlit("@type");
        reveal_strlit("termsOfService");
        assert("@type"@.len() == 5);
        assert("termsOfService"@.len() == 14);
        self.terms_of_service.round_trip("termsOfService"@);
    }
}

impl Tagged for AuthorizationStateWaitRegistration {
    open spec fn known(tag: Seq<char>) -> bool {
        tag == "authorizationStateWaitRegistration"@
    }

    fn knows(tag: &str) -> (r: bool) {
        same_text(tag, "authorizationStateWaitRegistration")
    }

    proof fn tag_known(&self) {
        reveal(<AuthorizationStateWaitRegistration as Wire>::wire);
        assert(tag_of(self.wire()) == Some("authorizationStateWaitRegistration"@));
        assert(Self::known("authorizationStateWaitRegistration"@));
    }
}

/// The user has been authorized, but needs to enter a password to start using the application
#[derive(Debug, Clone, PartialEq)]
pub struct AuthorizationStateWaitPassword {
    /// Hint for the password; may be empty
    pub password_hint: String,
    /// True, if a recovery email address has been set up
    pub has_recovery_email_address: bool,
    /// Pattern of the email address to which the recovery email was sent; empty until a recovery
    /// email has been sent
    pub recovery_email_address_pattern: String,
}

impl Wire for AuthorizationStateWaitPassword {
    #[verifier::opaque]
    open spec fn wire(&self) -> Doc {
        tagged(
            Map::empty()
                .insert("passwordHint"@, self.password_hint.wire())
                .insert("hasRecoveryEmailAddress"@, self.has_recovery_email_address.wire())
                .insert("recoveryEmailAddressPattern"@, self.recovery_email_address_pattern.wire()),
            "authorizationStateWaitPassword"@,
        )
    }

    #[verifier::opaque]
    open spec fn parse(d: Doc, at: Seq<char>) -> Result<Doc, Fault> {
        match d {
            Doc::Object(m) => {
                let password_hint = field::<String>(m, "passwordHint"@);
                let has_recovery_email_address = field::<bool>(m, "hasRecoveryEmailAddress"@);
                let recovery_email_address_pattern = field::<String>(
                    m,
                    "recoveryEmailAddressPattern"@,
                );
                if password_hint is Err {
                    password_hint
                } else if has_recovery_email_address is Err {
                    has_recovery_email_address
                } else if recovery_email_address_pattern is Err {
                    recovery_email_address_pattern
                } else {
                    Ok(
                        tagged(
                            Map::empty()
                                .insert("passwordHint"@, password_hint->Ok_0)
                                .insert(
                                    "hasRecoveryEmailAddress"@,
                                    has_recovery_email_address->Ok_0,
                                )
                                .insert(
                                    "recoveryEmailAddressPattern"@,
                                    recovery_email_address_pattern->Ok_0,
                                ),
                            "authorizationStateWaitPassword"@,
                        ),
                    )
                }
            },
            _ => Err(Fault::TypeMismatch(at)),
        }
    }

    fn encode(&self) -> (j: Json) {
        proof {
            reveal(<AuthorizationStateWaitPassword as Wire>::wire);
        }
        let mut members: Vec<Member> = Vec::new();
        put(&mut members, "passwordHint", self.password_hint.encode());
        put(&mut members, "hasRecoveryEmailAddress", self.has_recovery_email_address.encode());
        put(
            &mut members,
            "recoveryEmailAddressPattern",
            self.recovery_email_address_pattern.encode(),
        );
        seal(members, "authorizationStateWaitPassword")
    }

    fn decode(j: &Json, at: &str) -> (r: Result<Self, DecodeError>) {
        proof {
            reveal(<AuthorizationStateWaitPassword as Wire>::wire);
            reveal(<AuthorizationStateWaitPassword as Wire>::parse);
        }
        let members = members_of(j, at)?;
        let password_hint = read_field::<String>(members, "passwordHint")?;
        let has_recovery_email_address = read_field::<bool>(members, "hasRecoveryEmailAddress")?;
        let recovery_email_address_pattern = read_field::<String>(
            members,
            "recoveryEmailAddressPattern",
        )?;
        Ok(AuthorizationStateWaitPassword {
            password_hint,
            has_recovery_email_address,
            recovery_email_address_pattern,
        })
    }

    proof fn round_trip(&self, at: Seq<char>) {
        reveal(<AuthorizationStateWaitPassword as Wire>::wire);
        reveal(<AuthorizationStateWaitPassword as Wire>::parse);
        reveal_strlit("@type");
        reveal_strlit("hasRecoveryEmailAddress");
        reveal_strlit("passwordHint");
        reveal_strlit("recoveryEmailAddressPattern");
        assert("@type"@.len() == 5);
        assert("hasRecoveryEmailAddress"@.len() == 23);
        assert("passwordHint"@.len() == 12);
        assert("recoveryEmailAddressPattern"@.len() == 27);
        self.password_hint.round_trip("passwordHint"@);
        self.has_recovery_email_address.round_trip("hasRecoveryEmailAddress"@);
        self.recovery_email_address_pattern.round_trip("recoveryEmailAddressPattern"@);
    }
}

impl Tagged for AuthorizationStateWaitPassword {
    open spec fn known(tag: Seq<char>) -> bool {
        tag == "authorizationStateWaitPassword"@
    }

    fn knows(tag: &str) -> (r: bool) {
        same_text(tag, "authorizationStateWaitPassword")
    }

    proof fn tag_known(&self) {
        reveal(<AuthorizationStateWaitPassword as Wire>::wire);
        assert(tag_of(self.wire()) == Some("authorizationStateWaitPassword"@));
        assert(Self::known("authorizationStateWaitPassword"@));
    }
}

/// The user has been successfully authorized. TDLib is now ready to answer queries
#[derive(Debug, Clone, PartialEq)]
pub struct AuthorizationStateReady {}

impl Wire for AuthorizationStateReady {
    #[verifier::opaque]
    open spec fn wire(&self) -> Doc {
        tagged(Map::empty(), "authorizationStateReady"@)
    }

    #[verifier::opaque]
    open spec fn parse(d: Doc, at: Seq<char>) -> Result<Doc, Fault> {
        match d {
            Doc::Object(_) => Ok(tagged(Map::empty(), "authorizationStateReady"@)),
            _ => Err(Fault::TypeMismatch(at)),
        }
    }

    fn encode(&self) -> (j: Json) {
        proof {
            reveal(<AuthorizationStateReady as Wire>::wire);
        }
        seal(Vec::new(), "authorizationStateReady")
    }

    fn decode(j: &Json, at: &str) -> (r: Result<Self, DecodeError>) {
        proof {
            reveal(<AuthorizationStateReady as Wire>::wire);
            reveal(<AuthorizationStateReady as Wire>::parse);
        }
        let _ = members_of(j, at)?;
        Ok(AuthorizationStateReady {})
    }

    proof fn round_trip(&self, at: Seq<char>) {
        reveal(<AuthorizationStateReady as Wire>::wire);
        reveal(<AuthorizationStateReady as Wire>::parse);
    }
}

impl Tagged for AuthorizationStateReady {
    open spec fn known(tag: Seq<char>) -> bool {
        tag == "authorizationStateReady"@
    }

    fn knows(tag: &str) -> (r: bool) {
        same_text(tag, "authorizationStateReady")
    }

    proof fn tag_known(&self) {
        reveal(<AuthorizationStateReady as Wire>::wire);
        assert(tag_of(self.wire()) == Some("authorizationStateReady"@));
        assert(Self::known("authorizationStateReady"@));
    }
}

/// The user is currently logging out
#[derive(Debug, Clone, PartialEq)]
pub struct AuthorizationStateLoggingOut {}

impl Wire for AuthorizationStateLoggingOut {
    #[verifier::opaque]
    open spec fn wire(&self) -> Doc {
        tagged(Map::empty(), "authorizationStateLoggingOut"@)
    }

    #[verifier::opaque]
    open spec fn parse(d: Doc, at: Seq<char>) -> Result<Doc, Fault> {
        match d {
            Doc::Object(_) => Ok(tagged(Map::empty(), "authorizationStateLoggingOut"@)),
            _ => Err(Fault::TypeMismatch(at)),
        }
    }

    fn encode(&self) -> (j: Json) {
        proof {
            reveal(<AuthorizationStateLoggingOut as Wire>::wire);
        }
        seal(Vec::new(), "authorizationStateLoggingOut")
    }

    fn decode(j: &Json, at: &str) -> (r: Result<Self, DecodeError>) {
        proof {
            reveal(<AuthorizationStateLoggingOut as Wire>::wire);
            reveal(<AuthorizationStateLoggingOut as Wire>::parse);
        }
        let _ = members_of(j, at)?;
        Ok(AuthorizationStateLoggingOut {})
    }

    proof fn round_trip(&self, at: Seq<char>) {
        reveal(<AuthorizationStateLoggingOut as Wire>::wire);
        reveal(<AuthorizationStateLoggingOut as Wire>::parse);
    }
}

impl Tagged for AuthorizationStateLoggingOut {
    open spec fn known(tag: Seq<char>) -> bool {
        tag == "authorizationStateLoggingOut"@
    }

    fn knows(tag: &str) -> (r: bool) {
        same_text(tag, "authorizationStateLoggingOut")
    }

    proof fn tag_known(&self) {
        reveal(<AuthorizationStateLoggingOut as Wire>::wire);
        assert(tag_of(self.wire()) == Some("authorizationStateLoggingOut"@));
        assert(Self::known("authorizationStateLoggingOut"@));
    }
}

/// TDLib is closing, all subsequent queries will be answered with the error 500. Note that closing
/// TDLib can take a while. All resources will be freed only after authorizationStateClosed has been
/// received
#[derive(Debug, Clone, PartialEq)]
pub struct AuthorizationStateClosing {}

impl Wire for AuthorizationStateClosing {
    #[verifier::opaque]
    open spec fn wire(&self) -> Doc {
        tagged(Map::empty(), "authorizationStateClosing"@)
    }

    #[verifier::opaque]
    open spec fn parse(d: Doc, at: Seq<char>) -> Result<Doc, Fault> {
        match d {
            Doc::Object(_) => Ok(tagged(Map::empty(), "authorizationStateClosing"@)),
            _ => Err(Fault::TypeMismatch(at)),
        }
    }

    fn encode(&self) -> (j: Json) {
        proof {
            reveal(<AuthorizationStateClosing as Wire>::wire);
        }
        seal(Vec::new(), "authorizationStateClosing")
    }

    fn decode(j: &Json, at: &str) -> (r: Result<Self, DecodeError>) {
        proof {
            reveal(<AuthorizationStateClosing as Wire>::wire);
            reveal(<AuthorizationStateClosing as Wire>::parse);
        }
        let _ = members_of(j, at)?;
        Ok(AuthorizationStateClosing {})
    }

    proof fn round_trip(&self, at: Seq<char>) {
        reveal(<AuthorizationStateClosing as Wire>::wire);
        reveal(<AuthorizationStateClosing as Wire>::parse);
    }
}

impl Tagged for AuthorizationStateClosing {
    open spec fn known(tag: Seq<char>) -> bool {
        tag == "authorizationStateClosing"@
    }

    fn knows(tag: &str) -> (r: bool) {
        same_text(tag, "authorizationStateClosing")
    }

    proof fn tag_known(&self) {
        reveal(<AuthorizationStateClosing as Wire>::wire);
        assert(tag_of(self.wire()) == Some("authorizationStateClosing"@));
        assert(Self::known("authorizationStateClosing"@));
    }
}

/// TDLib client is in its final state. All databases are closed and all resources are released. No
/// other updates will be received after this. All queries will be responded to with error code 500.
/// To continue working, one should create a new instance of the TDLib client
#[derive(Debug, Clone, PartialEq)]
pub struct AuthorizationStateClosed {}

impl Wire for AuthorizationStateClosed {
    #[verifier::opaque]
    open spec fn wire(&self) -> Doc {
        tagged(Map::empty(), "authorizationStateClosed"@)
    }

    #[verifier::opaque]
    open spec fn parse(d: Doc, at: Seq<char>) -> Result<Doc, Fault> {
        match d {
            Doc::Object(_) => Ok(tagged(Map::empty(), "authorizationStateClosed"@)),
            _ => Err(Fault::TypeMismatch(at)),
        }
    }

    fn encode(&self) -> (j: Json) {
        proof {
            reveal(<AuthorizationStateClosed as Wire>::wire);
        }
        seal(Vec::new(), "authorizationStateClosed")
    }

    fn decode(j: &Json, at: &str) -> (r: Result<Self, DecodeError>) {
        proof {
            reveal(<AuthorizationStateClosed as Wire>::wire);
            reveal(<AuthorizationStateClosed as Wire>::parse);
        }
        let _ = members_of(j, at)?;
        Ok(AuthorizationStateClosed {})
    }

    proof fn round_trip(&self, at: Seq<char>) {
        reveal(<AuthorizationStateClosed as Wire>::wire);
        reveal(<AuthorizationStateClosed as Wire>::parse);
    }
}

impl Tagged for AuthorizationStateClosed {
    open spec fn known(tag: Seq<char>) -> bool {
        tag == "authorizationStateClosed"@
    }

    fn knows(tag: &str) -> (r: bool) {
        same_text(tag, "authorizationStateClosed")
    }

    proof fn tag_known(&self) {
        reveal(<AuthorizationStateClosed as Wire>::wire);
        assert(tag_of(self.wire()) == Some("authorizationStateClosed"@));
        assert(Self::known("authorizationStateClosed"@));
    }
}

/// Represents the current authorization state of the client
#[derive(Debug, Clone, PartialEq)]
pub enum AuthorizationState {
    AuthorizationStateWaitTdlibParameters(AuthorizationStateWaitTdlibParameters),
    AuthorizationStateWaitEncryptionKey(AuthorizationStateWaitEncryptionKey),
    AuthorizationStateWaitPhoneNumber(AuthorizationStateWaitPhoneNumber),
    AuthorizationStateWaitCode(AuthorizationStateWaitCode),
    AuthorizationStateWaitOtherDeviceConfirmation(AuthorizationStateWaitOtherDeviceConfirmation),
    AuthorizationStateWaitRegistration(AuthorizationStateWaitRegistration),
    AuthorizationStateWaitPassword(AuthorizationStateWaitPassword),
    AuthorizationStateReady(AuthorizationStateReady),
    AuthorizationStateLoggingOut(AuthorizationStateLoggingOut),
    AuthorizationStateClosing(AuthorizationStateClosing),
    AuthorizationStateClosed(AuthorizationStateClosed),
}

impl Wire for AuthorizationState {
    #[verifier::opaque]
    open spec fn wire(&self) -> Doc {
        match self {
            Self::AuthorizationStateWaitTdlibParameters(p) => p.wire(),
            Self::AuthorizationStateWaitEncryptionKey(p) => p.wire(),
            Self::AuthorizationStateWaitPhoneNumber(p) => p.wire(),
            Self::AuthorizationStateWaitCode(p) => p.wire(),
            Self::AuthorizationStateWaitOtherDeviceConfirmation(p) => p.wire(),
            Self::AuthorizationStateWaitRegistration(p) => p.wire(),
            Self::AuthorizationStateWaitPassword(p) => p.wire(),
            Self::AuthorizationStateReady(p) => p.wire(),
            Self::AuthorizationStateLoggingOut(p) => p.wire(),
            Self::AuthorizationStateClosing(p) => p.wire(),
            Self::AuthorizationStateClosed(p) => p.wire(),
        }
    }

    #[verifier::opaque]
    open spec fn parse(d: Doc, at: Seq<char>) -> Result<Doc, Fault> {
        match d {
            Doc::Object(_) => match tag_of(d) {
                Some(t) => if t == "authorizationStateWaitTdlibParameters"@ {
                    AuthorizationStateWaitTdlibParameters::parse(d, at)
                } else if t == "authorizationStateWaitEncryptionKey"@ {
                    AuthorizationStateWaitEncryptionKey::parse(d, at)
                } else if t == "authorizationStateWaitPhoneNumber"@ {
                    AuthorizationStateWaitPhoneNumber::parse(d, at)
                } else if t == "authorizationStateWaitCode"@ {
                    AuthorizationStateWaitCode::parse(d, at)
                } else if t == "authorizationStateWaitOtherDeviceConfirmation"@ {
                    AuthorizationStateWaitOtherDeviceConfirmation::parse(d, at)
                } else if t == "authorizationStateWaitRegistration"@ {
                    AuthorizationStateWaitRegistration::parse(d, at)
                } else if t == "authorizationStateWaitPassword"@ {
                    AuthorizationStateWaitPassword::parse(d, at)
                } else if t == "authorizationStateReady"@ {
                    AuthorizationStateReady::parse(d, at)
                } else if t == "authorizationStateLoggingOut"@ {
                    AuthorizationStateLoggingOut::parse(d, at)
                } else if t == "authorizationStateClosing"@ {
                    AuthorizationStateClosing::parse(d, at)
                } else if t == "authorizationStateClosed"@ {
                    AuthorizationStateClosed::parse(d, at)
                } else {
                    Err(Fault::UnknownVariant(t))
                },
                None => Err(Fault::MissingDiscriminator),
            },
            _ => Err(Fault::TypeMismatch(at)),
        }
    }

    fn encode(&self) -> (j: Json) {
        proof {
            reveal(<AuthorizationState as Wire>::wire);
        }
        match self {
            Self::AuthorizationStateWaitTdlibParameters(p) => p.encode(),
            Self::AuthorizationStateWaitEncryptionKey(p) => p.encode(),
            Self::AuthorizationStateWaitPhoneNumber(p) => p.encode(),
            Self::AuthorizationStateWaitCode(p) => p.encode(),
            Self::AuthorizationStateWaitOtherDeviceConfirmation(p) => p.encode(),
            Self::AuthorizationStateWaitRegistration(p) => p.encode(),
            Self::AuthorizationStateWaitPassword(p) => p.encode(),
            Self::AuthorizationStateReady(p) => p.encode(),
            Self::AuthorizationStateLoggingOut(p) => p.encode(),
            Self::AuthorizationStateClosing(p) => p.encode(),
            Self::AuthorizationStateClosed(p) => p.encode(),
        }
    }

    fn decode(j: &Json, at: &str) -> (r: Result<Self, DecodeError>) {
        proof {
            reveal(<AuthorizationState as Wire>::wire);
            reveal(<AuthorizationState as Wire>::parse);
        }
        let members = members_of(j, at)?;
        let tag = discriminator(members)?;
        if same_text(tag, "authorizationStateWaitTdlibParameters") {
            Ok(
                Self::AuthorizationStateWaitTdlibParameters(
                    AuthorizationStateWaitTdlibParameters::decode(j, at)?,
                ),
            )
        } else if same_text(tag, "authorizationStateWaitEncryptionKey") {
            Ok(
                Self::AuthorizationStateWaitEncryptionKey(
                    AuthorizationStateWaitEncryptionKey::decode(j, at)?,
                ),
            )
        } else if same_text(tag, "authorizationStateWaitPhoneNumber") {
            Ok(
                Self::AuthorizationStateWaitPhoneNumber(
                    AuthorizationStateWaitPhoneNumber::decode(j, at)?,
                ),
            )
        } else if same_text(tag, "authorizationStateWaitCode") {
            Ok(Self::AuthorizationStateWaitCode(AuthorizationStateWaitCode::decode(j, at)?))
        } else if same_text(tag, "authorizationStateWaitOtherDeviceConfirmation") {
            Ok(
                Self::AuthorizationStateWaitOtherDeviceConfirmation(
                    AuthorizationStateWaitOtherDeviceConfirmation::decode(j, at)?,
                ),
            )
        } else if same_text(tag, "authorizationStateWaitRegistration") {
            Ok(
                Self::AuthorizationStateWaitRegistration(
                    AuthorizationStateWaitRegistration::decode(j, at)?,
                ),
            )
        } else if same_text(tag, "authorizationStateWaitPassword") {
            Ok(Self::AuthorizationStateWaitPassword(AuthorizationStateWaitPassword::decode(j, at)?))
        } else if same_text(tag, "authorizationStateReady") {
            Ok(Self::AuthorizationStateReady(AuthorizationStateReady::decode(j, at)?))
        } else if same_text(tag, "authorizationStateLoggingOut") {
            Ok(Self::AuthorizationStateLoggingOut(AuthorizationStateLoggingOut::decode(j, at)?))
        } else if same_text(tag, "authorizationStateClosing") {
            Ok(Self::AuthorizationStateClosing(AuthorizationStateClosing::decode(j, at)?))
        } else if same_text(tag, "authorizationStateClosed") {
            Ok(Self::AuthorizationStateClosed(AuthorizationStateClosed::decode(j, at)?))
        } else {
            Err(DecodeError::UnknownVariant(tag.to_owned()))
        }
    }

    proof fn round_trip(&self, at: Seq<char>) {
        reveal(<AuthorizationState as Wire>::wire);
        reveal(<AuthorizationState as Wire>::parse);
        reveal_strlit("authorizationStateClosed");
        reveal_strlit("authorizationStateClosing");
        reveal_strlit("authorizationStateLoggingOut");
        reveal_strlit("authorizationStateReady");
        reveal_strlit("authorizationStateWaitCode");
        reveal_strlit("authorizationStateWaitEncryptionKey");
        reveal_strlit("authorizationStateWaitOtherDeviceConfirmation");
        reveal_strlit("authorizationStateWaitPassword");
        reveal_strlit("authorizationStateWaitPhoneNumber");
        reveal_strlit("authorizationStateWaitRegistration");
        reveal_strlit("authorizationStateWaitTdlibParameters");
        assert("authorizationStateClosed"@.len() == 24);
        assert("authorizationStateClosing"@.len() == 25);
        assert("authorizationStateLoggingOut"@.len() == 28);
        assert("authorizationStateReady"@.len() == 23);
        assert("authorizationStateWaitCode"@.len() == 26);
        assert("authorizationStateWaitEncryptionKey"@.len() == 35);
        assert("authorizationStateWaitOtherDeviceConfirmation"@.len() == 45);
        assert("authorizationStateWaitPassword"@.len() == 30);
        assert("authorizationStateWaitPhoneNumber"@.len() == 33);
        assert("authorizationStateWaitRegistration"@.len() == 34);
        assert("authorizationStateWaitTdlibParameters"@.len() == 37);
        match self {
            Self::AuthorizationStateWaitTdlibParameters(p) => {
                p.tag_known();
                p.round_trip(at);
            },
            Self::AuthorizationStateWaitEncryptionKey(p) => {
                p.tag_known();
                p.round_trip(at);
            },
            Self::AuthorizationStateWaitPhoneNumber(p) => {
                p.tag_known();
                p.round_trip(at);
            },
            Self::AuthorizationStateWaitCode(p) => {
                p.tag_known();
                p.round_trip(at);
            },
            Self::AuthorizationStateWaitOtherDeviceConfirmation(p) => {
                p.tag_known();
                p.round_trip(at);
            },
            Self::AuthorizationStateWaitRegistration(p) => {
                p.tag_known();
                p.round_trip(at);
            },
            Self::AuthorizationStateWaitPassword(p) => {
                p.tag_known();
                p.round_trip(at);
            },
            Self::AuthorizationStateReady(p) => {
                p.tag_known();
                p.round_trip(at);
            },
            Self::AuthorizationStateLoggingOut(p) => {
                p.tag_known();
                p.round_trip(at);
            },
            Self::AuthorizationStateClosing(p) => {
                p.tag_known();
                p.round_trip(at);
            },
            Self::AuthorizationStateClosed(p) => {
                p.tag_known();
                p.round_trip(at);
            },
        }
    }
}

impl Tagged for AuthorizationState {
    open spec fn known(tag: Seq<char>) -> bool {
        ||| tag == "authorizationStateWaitTdlibParameters"@
        ||| tag == "authorizationStateWaitEncryptionKey"@
        ||| tag == "authorizationStateWaitPhoneNumber"@
        ||| tag == "authorizationStateWaitCode"@
        ||| tag == "authorizationStateWaitOtherDeviceConfirmation"@
        ||| tag == "authorizationStateWaitRegistration"@
        ||| tag == "authorizationStateWaitPassword"@
        ||| tag == "authorizationStateReady"@
        ||| tag == "authorizationStateLoggingOut"@
        ||| tag == "authorizationStateClosing"@
        ||| tag == "authorizationStateClosed"@
    }

    fn knows(tag: &str) -> (r: bool) {
        same_text(tag, "authorizationStateWaitTdlibParameters")
            || same_text(tag, "authorizationStateWaitEncryptionKey")
            || same_text(tag, "authorizationStateWaitPhoneNumber")
            || same_text(tag, "authorizationStateWaitCode")
            || same_text(tag, "authorizationStateWaitOtherDeviceConfirmation")
            || same_text(tag, "authorizationStateWaitRegistration")
            || same_text(tag, "authorizationStateWaitPassword")
            || same_text(tag, "authorizationStateReady")
            || same_text(tag, "authorizationStateLoggingOut")
            || same_text(tag, "authorizationStateClosing")
            || same_text(tag, "authorizationStateClosed")
    }

    proof fn tag_known(&self) {
        reveal(<AuthorizationState as Wire>::wire);
        match self {
            Self::AuthorizationStateWaitTdlibParameters(p) => p.tag_known(),
            Self::AuthorizationStateWaitEncryptionKey(p) => p.tag_known(),
            Self::AuthorizationStateWaitPhoneNumber(p) => p.tag_known(),
            Self::AuthorizationStateWaitCode(p) => p.tag_known(),
            Self::AuthorizationStateWaitOtherDeviceConfirmation(p) => p.tag_known(),
            Self::AuthorizationStateWaitRegistration(p) => p.tag_known(),
            Self::AuthorizationStateWaitPassword(p) => p.tag_known(),
            Self::AuthorizationStateReady(p) => p.tag_known(),
            Self::AuthorizationStateLoggingOut(p) => p.tag_known(),
            Self::AuthorizationStateClosing(p) => p.tag_known(),
            Self::AuthorizationStateClosed(p) => p.tag_known(),
        }
    }
}

impl Union for AuthorizationState {
    proof fn unknown_rejected(d: Doc, at: Seq<char>) {
        reveal(<AuthorizationState as Wire>::parse);
    }

    proof fn untagged_rejected(d: Doc, at: Seq<char>) {
        reveal(<AuthorizationState as Wire>::parse);
    }
}

/// Represents the current state of 2-step verification
#[derive(Debug, Clone, PartialEq)]
pub struct PasswordState {
    /// True, if a 2-step verification password is set
    pub has_password: bool,
    /// Hint for the password; may be empty
    pub password_hint: String,
    /// True, if a recovery email is set
    pub has_recovery_email_address: bool,
    /// True, if some Telegram Passport elements were saved
    pub has_passport_data: bool,
    /// Information about the recovery email address to which the confirmation email was sent; may
    /// be null
    pub recovery_email_address_code_info: Option<EmailAddressAuthenticationCodeInfo>,
}

impl Wire for PasswordState {
    #[verifier::opaque]
    open spec fn wire(&self) -> Doc {
        tagged(
            Map::empty()
                .insert("hasPassword"@, self.has_password.wire())
                .insert("passwordHint"@, self.password_hint.wire())
                .insert("hasRecoveryEmailAddress"@, self.has_recovery_email_address.wire())
                .insert("hasPassportData"@, self.has_passport_data.wire())
                .insert(
                    "recoveryEmailAddressCodeInfo"@,
                    self.recovery_email_address_code_info.wire(),
                ),
            "passwordState"@,
        )
    }

    #[verifier::opaque]
    open spec fn parse(d: Doc, at: Seq<char>) -> Result<Doc, Fault> {
        match d {
            Doc::Object(m) => {
                let has_password = field::<bool>(m, "hasPassword"@);
                let password_hint = field::<String>(m, "passwordHint"@);
                let has_recovery_email_address = field::<bool>(m, "hasRecoveryEmailAddress"@);
                let has_passport_data = field::<bool>(m, "hasPassportData"@);
                let recovery_email_address_code_info = optional_field::<EmailAddressAuthenticationCodeInfo>(
                    m,
                    "recoveryEmailAddressCodeInfo"@,
                );
                if has_password is Err {
                    has_password
                } else if password_hint is Err {
                    password_hint
                } else if has_recovery_email_address is Err {
                    has_recovery_email_address
                } else if has_passport_data is Err {
                    has_passport_data
                } else if recovery_email_address_code_info is Err {
                    recovery_email_address_code_info
                } else {
                    Ok(
                        tagged(
                            Map::empty()
                                .insert("hasPassword"@, has_password->Ok_0)
                                .insert("passwordHint"@, password_hint->Ok_0)
                                .insert(
                                    "hasRecoveryEmailAddress"@,
                                    has_recovery_email_address->Ok_0,
                                )
                                .insert("hasPassportData"@, has_passport_data->Ok_0)
                                .insert(
                                    "recoveryEmailAddressCodeInfo"@,
                                    recovery_email_address_code_info->Ok_0,
                                ),
                            "passwordState"@,
                        ),
                    )
                }
            },
            _ => Err(Fault::TypeMismatch(at)),
        }
    }

    fn encode(&self) -> (j: Json) {
        proof {
            reveal(<PasswordState as Wire>::wire);
        }
        let mut members: Vec<Member> = Vec::new();
        put(&mut members, "hasPassword", self.has_password.encode());
        put(&mut members, "passwordHint", self.password_hint.encode());
        put(&mut members, "hasRecoveryEmailAddress", self.has_recovery_email_address.encode());
        put(&mut members, "hasPassportData", self.has_passport_data.encode());
        put(
            &mut members,
            "recoveryEmailAddressCodeInfo",
            self.recovery_email_address_code_info.encode(),
        );
        seal(members, "passwordState")
    }

    fn decode(j: &Json, at: &str) -> (r: Result<Self, DecodeError>) {
        proof {
            reveal(<PasswordState as Wire>::wire);
            reveal(<PasswordState as Wire>::parse);
        }
        let members = members_of(j, at)?;
        let has_password = read_field::<bool>(members, "hasPassword")?;
        let password_hint = read_field::<String>(members, "passwordHint")?;
        let has_recovery_email_address = read_field::<bool>(members, "hasRecoveryEmailAddress")?;
        let has_passport_data = read_field::<bool>(members, "hasPassportData")?;
        let recovery_email_address_code_info = read_optional::<EmailAddressAuthenticationCodeInfo>(
            members,
            "recoveryEmailAddressCodeInfo",
        )?;
        Ok(PasswordState {
            has_password,
            password_hint,
            has_recovery_email_address,
            has_passport_data,
            recovery_email_address_code_info,
        })
    }

    proof fn round_trip(&self, at: Seq<char>) {
        reveal(<PasswordState as Wire>::wire);
        reveal(<PasswordState as Wire>::parse);
        reveal_strlit("@type");
        reveal_strlit("hasPassportData");
        reveal_strlit("hasPassword");
        reveal_strlit("hasRecoveryEmailAddress");
        reveal_strlit("passwordHint");
        reveal_strlit("recoveryEmailAddressCodeInfo");
        assert("@type"@.len() == 5);
        assert("hasPassportData"@.len() == 15);
        assert("hasPassword"@.len() == 11);
        assert("hasRecoveryEmailAddress"@.len() == 23);
        assert("passwordHint"@.len() == 12);
        assert("recoveryEmailAddressCodeInfo"@.len() == 28);
        self.has_password.round_trip("hasPassword"@);
        self.password_hint.round_trip("passwordHint"@);
        self.has_recovery_email_address.round_trip("hasRecoveryEmailAddress"@);
        self.has_passport_data.round_trip("hasPassportData"@);
        self.recovery_email_address_code_info.round_trip("recoveryEmailAddressCodeInfo"@);
    }
}

impl Tagged for PasswordState {
    open spec fn known(tag: Seq<char>) -> bool {
        tag == "passwordState"@
    }

    fn knows(tag: &str) -> (r: bool) {
        same_text(tag, "passwordState")
    }

    proof fn tag_known(&self) {
        reveal(<PasswordState as Wire>::wire);
        assert(tag_of(self.wire()) == Some("passwordState"@));
        assert(Self::known("passwordState"@));
    }
}

/// Contains information about the current recovery email address
#[derive(Debug, Clone, PartialEq)]
pub struct RecoveryEmailAddress {
    /// Recovery email address
    pub recovery_email_address: String,
}

impl Wire for RecoveryEmailAddress {
    #[verifier::opaque]
    open spec fn wire(&self) -> Doc {
        tagged(
            Map::empty()
                .insert("recoveryEmailAddress"@, self.recovery_email_address.wire()),
            "recoveryEmailAddress"@,
        )
    }

    #[verifier::opaque]
    open spec fn parse(d: Doc, at: Seq<char>) -> Result<Doc, Fault> {
        match d {
            Doc::Object(m) => {
                let recovery_email_address = field::<String>(m, "recoveryEmailAddress"@);
                if recovery_email_address is Err {
                    recovery_email_address
                } else {
                    Ok(
                        tagged(
                            Map::empty()
                                .insert("recoveryEmailAddress"@, recovery_email_address->Ok_0),
                            "recoveryEmailAddress"@,
                        ),
                    )
                }
            },
            _ => Err(Fault::TypeMismatch(at)),
        }
    }

    fn encode(&self) -> (j: Json) {
        proof {
            reveal(<RecoveryEmailAddress as Wire>::wire);
        }
        let mut members: Vec<Member> = Vec::new();
        put(&mut members, "recoveryEmailAddress", self.recovery_email_address.encode());
        seal(members, "recoveryEmailAddress")
    }

    fn decode(j: &Json, at: &str) -> (r: Result<Self, DecodeError>) {
        proof {
            reveal(<RecoveryEmailAddress as Wire>::wire);
            reveal(<RecoveryEmailAddress as Wire>::parse);
        }
        let members = members_of(j, at)?;
        let recovery_email_address = read_field::<String>(members, "recoveryEmailAddress")?;
        Ok(RecoveryEmailAddress { recovery_email_address })
    }

    proof fn round_trip(&self, at: Seq<char>) {
        reveal(<RecoveryEmailAddress as Wire>::wire);
        reveal(<RecoveryEmailAddress as Wire>::parse);
        reveal_strlit("@type");
        reveal_strlit("recoveryEmailAddress");
        assert("@type"@.len() == 5);
        assert("recoveryEmailAddress"@.len() == 20);
        self.recovery_email_address.round_trip("recoveryEmailAddress"@);
    }
}

impl Tagged for RecoveryEmailAddress {
    open spec fn known(tag: Seq<char>) -> bool {
        tag == "recoveryEmailAddress"@
    }

    fn knows(tag: &str) -> (r: bool) {
        same_text(tag, "recoveryEmailAddress")
    }

    proof fn tag_known(&self) {
        reveal(<RecoveryEmailAddress as Wire>::wire);
        assert(tag_of(self.wire()) == Some("recoveryEmailAddress"@));
        assert(Self::known("recoveryEmailAddress"@));
    }
}

/// Returns information about the availability of a temporary password, which can be used for
/// payments
#[derive(Debug, Clone, PartialEq)]
pub struct TemporaryPasswordState {
    /// True, if a temporary password is available
    pub has_password: bool,
    /// Time left before the temporary password expires, in seconds
    pub valid_for: i32,
}

impl Wire for TemporaryPasswordState {
    #[verifier::opaque]
    open spec fn wire(&self) -> Doc {
        tagged(
            Map::empty()
                .insert("hasPassword"@, self.has_password.wire())
                .insert("validFor"@, self.valid_for.wire()),
            "temporaryPasswordState"@,
        )
    }

    #[verifier::opaque]
    open spec fn parse(d: Doc, at: Seq<char>) -> Result<Doc, Fault> {
        match d {
            Doc::Object(m) => {
                let has_password = field::<bool>(m, "hasPassword"@);
                let valid_for = field::<i32>(m, "validFor"@);
                if has_password is Err {
                    has_password
                } else if valid_for is Err {
                    valid_for
                } else {
                    Ok(
                        tagged(
                            Map::empty()
                                .insert("hasPassword"@, has_password->Ok_0)
                                .insert("validFor"@, valid_for->Ok_0),
                            "temporaryPasswordState"@,
                        ),
                    )
                }
            },
            _ => Err(Fault::TypeMismatch(at)),
        }
    }

    fn encode(&self) -> (j: Json) {
        proof {
            reveal(<TemporaryPasswordState as Wire>::wire);
        }
        let mut members: Vec<Member> = Vec::new();
        put(&mut members, "hasPassword", self.has_password.encode());
        put(&mut members, "validFor", self.valid_for.encode());
        seal(members, "temporaryPasswordState")
    }

    fn decode(j: &Json, at: &str) -> (r: Result<Self, DecodeError>) {
        proof {
            reveal(<TemporaryPasswordState as Wire>::wire);
            reveal(<TemporaryPasswordState as Wire>::parse);
        }
        let members = members_of(j, at)?;
        let has_password = read_field::<bool>(members, "hasPassword")?;
        let valid_for = read_field::<i32>(members, "validFor")?;
        Ok(TemporaryPasswordState { has_password, valid_for })
    }

    proof fn round_trip(&self, at: Seq<char>) {
        reveal(<TemporaryPasswordState as Wire>::wire);
        reveal(<TemporaryPasswordState as Wire>::parse);
        reveal_strlit("@type");
        reveal_strlit("hasPassword");
        reveal_strlit("validFor");
        assert("@type"@.len() == 5);
        assert("hasPassword"@.len() == 11);
        assert("validFor"@.len() == 8);
        self.has_password.round_trip("hasPassword"@);
        self.valid_for.round_trip("validFor"@);
    }
}

impl Tagged for TemporaryPasswordState {
    open spec fn known(tag: Seq<char>) -> bool {
        tag == "temporaryPasswordState"@
    }

    fn knows(tag: &str) -> (r: bool) {
        same_text(tag, "temporaryPasswordState")
    }

    proof fn tag_known(&self) {
        reveal(<TemporaryPasswordState as Wire>::wire);
        assert(tag_of(self.wire()) == Some("temporaryPasswordState"@));
        assert(Self::known("temporaryPasswordState"@));
    }
}

} // verus!
