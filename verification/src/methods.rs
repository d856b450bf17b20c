//! The requests of the protocol, each bound to the type of its response.

use vstd::prelude::*;
use crate::codec::{decode_tagged, has_tag, parse_tagged, seal, Tagged, Wire};
use crate::error::{DecodeError, Fault};
use crate::json::{tag_of, Doc, Json};
use crate::types::Error;

pub mod auth;
pub mod lookup;
pub mod messages;
pub mod chats;
pub mod social;
pub mod account;
pub mod passport;
pub mod service;

pub use self::auth::{
    CheckAuthenticationBotToken, CheckAuthenticationCode, CheckAuthenticationPassword,
    CheckDatabaseEncryptionKey, CheckRecoveryEmailAddressCode, Close, ConfirmQrCodeAuthentication,
    CreateTemporaryPassword, Destroy, GetAuthorizationState, GetCurrentState, GetPasswordState,
    GetRecoveryEmailAddress, GetTemporaryPasswordState, LogOut, RecoverAuthenticationPassword,
    RecoverPassword, RegisterUser, RequestAuthenticationPasswordRecovery, RequestPasswordRecovery,
    RequestQrCodeAuthentication, ResendAuthenticationCode, ResendRecoveryEmailAddressCode,
    SetAuthenticationPhoneNumber, SetDatabaseEncryptionKey, SetPassword, SetRecoveryEmailAddress,
    SetTdlibParameters,
};
pub use self::lookup::{
    AddRecentlyFoundChat, CheckChatUsername, CheckCreatedPublicChatsLimit,
    ClearRecentlyFoundChats, GetBasicGroup, GetBasicGroupFullInfo, GetChat, GetChatHistory,
    GetChatPinnedMessage, GetChats, GetCreatedPublicChats, GetFile, GetGroupsInCommon,
    GetInactiveSupergroupChats, GetMe, GetMessage, GetMessageLocally, GetMessages, GetRemoteFile,
    GetRepliedMessage, GetSecretChat, GetSuitableDiscussionChats, GetSupergroup,
    GetSupergroupFullInfo, GetTopChats, GetUser, GetUserFullInfo, RemoveRecentlyFoundChat,
    RemoveTopChat, SearchChats, SearchChatsNearby, SearchChatsOnServer, SearchPublicChat,
    SearchPublicChats,
};
pub use self::messages::{
    AddLocalMessage, AnswerCallbackQuery, AnswerInlineQuery, AnswerPreCheckoutQuery,
    AnswerShippingQuery, CleanFileName, DeleteChatHistory, DeleteChatMessagesFromUser,
    DeleteMessages, EditInlineMessageCaption, EditInlineMessageLiveLocation,
    EditInlineMessageMedia, EditInlineMessageReplyMarkup, EditInlineMessageText,
    EditMessageCaption, EditMessageLiveLocation, EditMessageMedia, EditMessageReplyMarkup,
    EditMessageSchedulingState, EditMessageText, ForwardMessages, GetActiveLiveLocationMessages,
    GetCallbackQueryAnswer, GetChatMessageByDate, GetChatMessageCount, GetChatScheduledMessages,
    GetFileExtension, GetFileMimeType, GetGameHighScores, GetInlineGameHighScores,
    GetInlineQueryResults, GetJsonString, GetJsonValue, GetLanguagePackString, GetLoginUrl,
    GetLoginUrlInfo, GetMessageLink, GetMessageLinkInfo, GetPollVoters, GetPublicMessageLink,
    GetTextEntities, ParseTextEntities, RemoveNotification, RemoveNotificationGroup,
    ResendMessages, SearchCallMessages, SearchChatMessages, SearchChatRecentLocationMessages,
    SearchMessages, SearchSecretMessages, SendBotStartMessage,
    SendChatScreenshotTakenNotification, SendChatSetTtlMessage, SendInlineQueryResultMessage,
    SendMessage, SendMessageAlbum, SetGameScore, SetInlineGameScore, SetPollAnswer, StopPoll,
};
pub use self::chats::{
    AddChatMember, AddChatMembers, CanTransferOwnership, CancelDownloadFile, CancelUploadFile,
    CheckChatInviteLink, ClearAllDraftMessages, CloseChat, CreateBasicGroupChat,
    CreateNewBasicGroupChat, CreateNewSecretChat, CreateNewSupergroupChat, CreatePrivateChat,
    CreateSecretChat, CreateSupergroupChat, DeleteChatReplyMarkup, DeleteFile, DownloadFile,
    FinishFileGeneration, GenerateChatInviteLink, GetChatAdministrators, GetChatMember,
    GetChatNotificationSettingsExceptions, GetFileDownloadedPrefixSize,
    GetScopeNotificationSettings, JoinChat, JoinChatByInviteLink, LeaveChat, OpenChat,
    OpenMessageContent, PinChatMessage, ReadAllChatMentions, ReadFilePart,
    ResetAllNotificationSettings, SearchChatMembers, SendChatAction, SetChatChatList,
    SetChatClientData, SetChatDescription, SetChatDiscussionGroup, SetChatDraftMessage,
    SetChatLocation, SetChatMemberStatus, SetChatNotificationSettings, SetChatPermissions,
    SetChatPhoto, SetChatSlowModeDelay, SetChatTitle, SetFileGenerationProgress, SetPinnedChats,
    SetScopeNotificationSettings, ToggleChatDefaultDisableNotification,
    ToggleChatIsMarkedAsUnread, ToggleChatIsPinned, TransferChatOwnership, UnpinChatMessage,
    UpgradeBasicGroupChatToSupergroupChat, UploadFile, ViewMessages, WriteGeneratedFilePart,
};
pub use self::social::{
    AcceptCall, AddContact, AddFavoriteSticker, AddRecentSticker, AddSavedAnimation, BlockUser,
    ChangeImportedContacts, ChangeStickerSet, ClearImportedContacts, ClearRecentStickers,
    CreateCall, DeleteProfilePhoto, DiscardCall, GetArchivedStickerSets, GetAttachedStickerSets,
    GetBlockedUsers, GetContacts, GetEmojiSuggestionsUrl, GetFavoriteStickers,
    GetImportedContactCount, GetInstalledStickerSets, GetRecentInlineBots, GetRecentStickers,
    GetSavedAnimations, GetStickerEmojis, GetStickerSet, GetStickers, GetTrendingStickerSets,
    GetUserProfilePhotos, GetWebPageInstantView, GetWebPagePreview, ImportContacts,
    RemoveContacts, RemoveFavoriteSticker, RemoveRecentHashtag, RemoveRecentSticker,
    RemoveSavedAnimation, ReorderInstalledStickerSets, SearchContacts, SearchEmojis,
    SearchHashtags, SearchInstalledStickerSets, SearchStickerSet, SearchStickerSets,
    SearchStickers, SendCallDebugInformation, SendCallRating, SetProfilePhoto, SharePhoneNumber,
    UnblockUser, ViewTrendingStickerSets,
};
pub use self::account::{
    AddCustomServerLanguagePack, AddNetworkStatistics, ChangePhoneNumber,
    CheckChangePhoneNumberCode, CloseSecretChat, DeleteAccount, DeleteLanguagePack,
    DeleteSavedCredentials, DeleteSavedOrderInfo, DeleteSupergroup, DisconnectAllWebsites,
    DisconnectWebsite, EditCustomLanguagePackInfo, GetAccountTtl, GetActiveSessions,
    GetAutoDownloadSettingsPresets, GetBackgroundUrl, GetBackgrounds, GetChatEventLog,
    GetChatStatisticsUrl, GetConnectedWebsites, GetDatabaseStatistics, GetLanguagePackInfo,
    GetLanguagePackStrings, GetLocalizationTargetInfo, GetNetworkStatistics, GetOption,
    GetPassportElement, GetPaymentForm, GetPaymentReceipt, GetPushReceiverId,
    GetRecentlyVisitedTMeUrls, GetSavedOrderInfo, GetStorageStatistics, GetStorageStatisticsFast,
    GetSupergroupMembers, GetSupportUser, GetUserPrivacySettingRules, OptimizeStorage,
    ProcessPushNotification, RegisterDevice, RemoveBackground, RemoveChatActionBar, ReportChat,
    ReportSupergroupSpam, ResendChangePhoneNumberCode, ResetBackgrounds, ResetNetworkStatistics,
    SearchBackground, SendPaymentForm, SetAccountTtl, SetAutoDownloadSettings, SetBackground,
    SetBio, SetCustomLanguagePack, SetCustomLanguagePackString, SetName, SetNetworkType,
    SetOption, SetSupergroupStickerSet, SetSupergroupUsername, SetUserPrivacySettingRules,
    SetUsername, SynchronizeLanguagePack, TerminateAllOtherSessions, TerminateSession,
    ToggleSupergroupIsAllHistoryAvailable, ToggleSupergroupSignMessages, ValidateOrderInfo,
};
pub use self::passport::{
    CheckEmailAddressVerificationCode, CheckPhoneNumberConfirmationCode,
    CheckPhoneNumberVerificationCode, DeletePassportElement, GetAllPassportElements,
    GetPassportAuthorizationForm, GetPassportAuthorizationFormAvailableElements,
    GetPreferredCountryLanguage, ResendEmailAddressVerificationCode,
    ResendPhoneNumberConfirmationCode, ResendPhoneNumberVerificationCode,
    SendEmailAddressVerificationCode, SendPassportAuthorizationForm,
    SendPhoneNumberConfirmationCode, SendPhoneNumberVerificationCode, SetPassportElement,
    SetPassportElementErrors,
};
pub use self::service::{
    AcceptTermsOfService, AddLogMessage, AddProxy, AddStickerToSet, AnswerCustomQuery,
    CreateNewStickerSet, DisableProxy, EditProxy, EnableProxy, GetApplicationConfig,
    GetCountryCode, GetDeepLinkInfo, GetInviteText, GetLogStream, GetLogTagVerbosityLevel,
    GetLogTags, GetLogVerbosityLevel, GetMapThumbnailFile, GetProxies, GetProxyLink, PingProxy,
    RemoveProxy, RemoveStickerFromSet, SaveApplicationLogEvent, SendCustomRequest, SetAlarm,
    SetBotUpdatesStatus, SetLogStream, SetLogTagVerbosityLevel, SetLogVerbosityLevel,
    SetStickerPositionInSet, TestCallBytes, TestCallEmpty, TestCallString, TestCallVectorInt,
    TestCallVectorIntObject, TestCallVectorString, TestCallVectorStringObject, TestGetDifference,
    TestNetwork, TestProxy, TestReturnError, TestSquareInt, TestUseUpdate, UploadStickerFile,
};

verus! {

/// A request: a payload that knows its discriminator and the type that the
/// answer to it has.
///
/// The binding is fixed where the request type is defined; nothing is
/// looked up when a request is sent or an answer is read.
pub trait Method: Wire + Clone {
    /// The discriminator that the request travels under.
    const TYPE: &'static str;

    /// The type of the answer.
    type Response: Tagged;

    /// The document of a request carries `TYPE` as its discriminator.
    proof fn type_is_tag(&self)
        ensures
            tag_of(self.wire()) == Some(Self::TYPE@),
    ;

    /// Pairs the request with its discriminator, ready to be sent.
    fn tag(self) -> (r: MethodType<Self>)
        ensures
            r.type_@ == Self::TYPE@,
            r.payload == self,
    {
        MethodType { type_: Self::TYPE, payload: self }
    }
}

/// A request together with the discriminator it is sent under.
#[derive(Debug, Clone)]
pub struct MethodType<T: Method> {
    pub type_: &'static str,
    pub payload: T,
}

/// The document `d` with the discriminator `tag` in place of its own.
pub open spec fn stamped(d: Doc, tag: Seq<char>) -> Doc {
    match d {
        Doc::Object(m) => Doc::Object(m.insert("@type"@, Doc::Text(tag))),
        _ => d,
    }
}

impl<T: Method> MethodType<T> {
    /// The outgoing message: the fields of the payload and the
    /// discriminator, in one flat object.
    pub fn encode(&self) -> (j: Json)
        ensures
            j@ == stamped(self.payload.wire(), self.type_@),
    {
        match self.payload.encode() {
            Json::Object(members) => seal(members, self.type_),
            other => other,
        }
    }
}

/// A request that `tag` pairs with its discriminator goes out as the very
/// document of the request: the discriminator was in it already.
pub proof fn lemma_tagged_request<M: Method>(request: M)
    ensures
        stamped(request.wire(), M::TYPE@) == request.wire(),
{
    request.type_is_tag();
    let m = request.wire()->Object_0;
    assert(m.insert("@type"@, Doc::Text(M::TYPE@)) =~= m);
}

/// The mathematical model of a [`ReplyError`].
pub enum ReplyFault {
    ErrorResponse(Doc),
    Decode(Fault),
}

/// What a caller gets in place of the response that a request is bound to.
#[derive(Debug, Clone, PartialEq)]
pub enum ReplyError {
    /// The correspondent answered with the error object of the protocol,
    /// which is handed on as it came.
    ErrorResponse(Error),
    /// The reply is neither that nor a value of the bound response type.
    Decode(DecodeError),
}

impl View for ReplyError {
    type V = ReplyFault;

    open spec fn view(&self) -> ReplyFault {
        match self {
            ReplyError::ErrorResponse(e) => ReplyFault::ErrorResponse(e.wire()),
            ReplyError::Decode(e) => ReplyFault::Decode(e@),
        }
    }
}

/// What reading the reply to a request of type `M` yields.
///
/// A reply tagged `error` is never read as the bound response: it comes out
/// as an `ErrorResponse`. Any other reply is read as a message of the bound
/// response type.
pub open spec fn parse_reply<M: Method>(d: Doc) -> Result<Doc, ReplyFault> {
    if tag_of(d) == Some("error"@) {
        match Error::parse(d, Seq::empty()) {
            Ok(e) => Err(ReplyFault::ErrorResponse(e)),
            Err(f) => Err(ReplyFault::Decode(f)),
        }
    } else {
        match parse_tagged::<M::Response>(d) {
            Ok(v) => Ok(v),
            Err(f) => Err(ReplyFault::Decode(f)),
        }
    }
}

/// Reads the reply to a request of type `M`.
pub fn decode_reply<M: Method>(j: &Json) -> (r: Result<M::Response, ReplyError>)
    ensures
        match r {
            Ok(v) => parse_reply::<M>(j@) == Ok::<Doc, ReplyFault>(v.wire()),
            Err(e) => parse_reply::<M>(j@) == Err::<Doc, ReplyFault>(e@),
        },
{
    proof {
        reveal_strlit("");
        assert(""@ =~= Seq::<char>::empty());
    }
    if has_tag(j, "error") {
        match Error::decode(j, "") {
            Ok(e) => Err(ReplyError::ErrorResponse(e)),
            Err(e) => Err(ReplyError::Decode(e)),
        }
    } else {
        match decode_tagged::<M::Response>(j) {
            Ok(v) => Ok(v),
            Err(e) => Err(ReplyError::Decode(e)),
        }
    }
}

/// An answer that carries the error object of the protocol is handed to the
/// caller as an `ErrorResponse` with that very object.
pub proof fn lemma_error_reply<M: Method>(e: Error)
    ensures
        parse_reply::<M>(e.wire()) == Err::<Doc, ReplyFault>(ReplyFault::ErrorResponse(e.wire())),
{
    e.tag_known();
    e.round_trip(Seq::empty());
}

/// An answer of the bound type comes out as it went in, unless the bound
/// type is the error object itself.
pub proof fn lemma_reply_round_trip<M: Method>(v: M::Response)
    requires
        tag_of(v.wire()) != Some("error"@),
    ensures
        parse_reply::<M>(v.wire()) == Ok::<Doc, ReplyFault>(v.wire()),
{
    crate::codec::lemma_tagged_round_trip::<M::Response>(v);
}

} // verus!
