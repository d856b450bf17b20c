//! The objects of the protocol: every shape that a message or a part of one can have.

pub mod auth;
pub mod files;
pub mod users;
pub mod chats;
pub mod pages;
pub mod payments;
pub mod passport;
pub mod content;
pub mod actions;
pub mod calls;
pub mod inline;
pub mod events;
pub mod settings;
pub mod notifications;
pub mod privacy;
pub mod network;
pub mod updates;
pub mod testing;
pub mod response;

pub use self::auth::{
    AuthenticationCodeInfo, AuthenticationCodeType, AuthenticationCodeTypeCall,
    AuthenticationCodeTypeFlashCall, AuthenticationCodeTypeSms,
    AuthenticationCodeTypeTelegramMessage, AuthorizationState, AuthorizationStateClosed,
    AuthorizationStateClosing, AuthorizationStateLoggingOut, AuthorizationStateReady,
    AuthorizationStateWaitCode, AuthorizationStateWaitEncryptionKey,
    AuthorizationStateWaitOtherDeviceConfirmation, AuthorizationStateWaitPassword,
    AuthorizationStateWaitPhoneNumber, AuthorizationStateWaitRegistration,
    AuthorizationStateWaitTdlibParameters, EmailAddressAuthenticationCodeInfo, Error,
    FormattedText, Okay, PasswordState, RecoveryEmailAddress, TdlibParameters,
    TemporaryPasswordState, TermsOfService, TextEntities, TextEntity,
};
pub use self::files::{
    Animation, Audio, Contact, Document, File, Game, InputFile, InputFileGenerated, InputFileId,
    InputFileLocal, InputFileRemote, LocalFile, Location, MaskPoint, MaskPointChin, MaskPointEyes,
    MaskPointForehead, MaskPointMouth, MaskPosition, Minithumbnail, Photo, PhotoSize, Poll,
    PollOption, PollType, PollTypeQuiz, PollTypeRegular, RemoteFile, Sticker, Venue, Video,
    VideoNote, VoiceNote,
};
pub use self::users::{
    BasicGroup, BasicGroupFullInfo, BotCommand, BotInfo, ChatAdministrator, ChatAdministrators,
    ChatLocation, ChatMember, ChatMemberStatus, ChatMemberStatusAdministrator,
    ChatMemberStatusBanned, ChatMemberStatusCreator, ChatMemberStatusLeft, ChatMemberStatusMember,
    ChatMemberStatusRestricted, ChatMembers, ChatMembersFilter, ChatMembersFilterAdministrators,
    ChatMembersFilterBanned, ChatMembersFilterBots, ChatMembersFilterContacts,
    ChatMembersFilterMembers, ChatMembersFilterRestricted, ChatPermissions, ChatPhoto,
    ProfilePhoto, SecretChat, SecretChatState, SecretChatStateClosed, SecretChatStatePending,
    SecretChatStateReady, Supergroup, SupergroupFullInfo, SupergroupMembersFilter,
    SupergroupMembersFilterAdministrators, SupergroupMembersFilterBanned,
    SupergroupMembersFilterBots, SupergroupMembersFilterContacts, SupergroupMembersFilterRecent,
    SupergroupMembersFilterRestricted, SupergroupMembersFilterSearch, User, UserFullInfo,
    UserProfilePhoto, UserProfilePhotos, UserType, UserTypeBot, UserTypeDeleted, UserTypeRegular,
    UserTypeUnknown, Users,
};
pub use self::chats::{
    Chat, ChatActionBar, ChatActionBarAddContact, ChatActionBarReportAddBlock,
    ChatActionBarReportSpam, ChatActionBarReportUnrelatedLocation, ChatActionBarSharePhoneNumber,
    ChatInviteLink, ChatInviteLinkInfo, ChatList, ChatListArchive, ChatListMain, ChatNearby,
    ChatNotificationSettings, ChatType, ChatTypeBasicGroup, ChatTypePrivate, ChatTypeSecret,
    ChatTypeSupergroup, Chats, ChatsNearby, DraftMessage, FoundMessages, InlineKeyboardButton,
    InlineKeyboardButtonType, InlineKeyboardButtonTypeBuy, InlineKeyboardButtonTypeCallback,
    InlineKeyboardButtonTypeCallbackGame, InlineKeyboardButtonTypeLoginUrl,
    InlineKeyboardButtonTypeSwitchInline, InlineKeyboardButtonTypeUrl, KeyboardButton,
    KeyboardButtonType, KeyboardButtonTypeRequestLocation, KeyboardButtonTypeRequestPhoneNumber,
    KeyboardButtonTypeRequestPoll, KeyboardButtonTypeText, LoginUrlInfo, LoginUrlInfoOpen,
    LoginUrlInfoRequestConfirmation, Message, MessageForwardInfo, MessageForwardOrigin,
    MessageForwardOriginChannel, MessageForwardOriginHiddenUser, MessageForwardOriginUser,
    MessageSendingState, MessageSendingStateFailed, MessageSendingStatePending, Messages,
    NotificationSettingsScope, NotificationSettingsScopeChannelChats,
    NotificationSettingsScopeGroupChats, NotificationSettingsScopePrivateChats, PublicChatType,
    PublicChatTypeHasUsername, PublicChatTypeIsLocationBased, ReplyMarkup, ReplyMarkupForceReply,
    ReplyMarkupInlineKeyboard, ReplyMarkupRemoveKeyboard, ReplyMarkupShowKeyboard,
    ScopeNotificationSettings,
};
pub use self::pages::{
    PageBlock, PageBlockAnchor, PageBlockAnimation, PageBlockAudio, PageBlockAuthorDate,
    PageBlockBlockQuote, PageBlockCaption, PageBlockChatLink, PageBlockCollage, PageBlockCover,
    PageBlockDetails, PageBlockDivider, PageBlockEmbedded, PageBlockEmbeddedPost, PageBlockFooter,
    PageBlockHeader, PageBlockHorizontalAlignment, PageBlockHorizontalAlignmentCenter,
    PageBlockHorizontalAlignmentLeft, PageBlockHorizontalAlignmentRight, PageBlockKicker,
    PageBlockList, PageBlockListItem, PageBlockMap, PageBlockParagraph, PageBlockPhoto,
    PageBlockPreformatted, PageBlockPullQuote, PageBlockRelatedArticle, PageBlockRelatedArticles,
    PageBlockSlideshow, PageBlockSubheader, PageBlockSubtitle, PageBlockTable, PageBlockTableCell,
    PageBlockTitle, PageBlockVerticalAlignment, PageBlockVerticalAlignmentBottom,
    PageBlockVerticalAlignmentMiddle, PageBlockVerticalAlignmentTop, PageBlockVideo,
    PageBlockVoiceNote, RichText, RichTextAnchor, RichTextBold, RichTextEmailAddress,
    RichTextFixed, RichTextIcon, RichTextItalic, RichTextMarked, RichTextPhoneNumber,
    RichTextPlain, RichTextStrikethrough, RichTextSubscript, RichTextSuperscript,
    RichTextUnderline, RichTextUrl, RichTexts, WebPage, WebPageInstantView,
};
pub use self::payments::{
    Address, InputCredentials, InputCredentialsAndroidPay, InputCredentialsApplePay,
    InputCredentialsNew, InputCredentialsSaved, Invoice, LabeledPricePart, OrderInfo, PaymentForm,
    PaymentReceipt, PaymentResult, PaymentsProviderStripe, SavedCredentials, ShippingOption,
    ValidatedOrderInfo,
};
pub use self::passport::{
    Date, DatedFile, EncryptedCredentials, EncryptedPassportElement, IdentityDocument,
    InputIdentityDocument, InputPassportElement, InputPassportElementAddress,
    InputPassportElementBankStatement, InputPassportElementDriverLicense,
    InputPassportElementEmailAddress, InputPassportElementError, InputPassportElementErrorSource,
    InputPassportElementErrorSourceDataField, InputPassportElementErrorSourceFile,
    InputPassportElementErrorSourceFiles, InputPassportElementErrorSourceFrontSide,
    InputPassportElementErrorSourceReverseSide, InputPassportElementErrorSourceSelfie,
    InputPassportElementErrorSourceTranslationFile,
    InputPassportElementErrorSourceTranslationFiles, InputPassportElementErrorSourceUnspecified,
    InputPassportElementIdentityCard, InputPassportElementInternalPassport,
    InputPassportElementPassport, InputPassportElementPassportRegistration,
    InputPassportElementPersonalDetails, InputPassportElementPhoneNumber,
    InputPassportElementRentalAgreement, InputPassportElementTemporaryRegistration,
    InputPassportElementUtilityBill, InputPersonalDocument, PassportAuthorizationForm,
    PassportElement, PassportElementAddress, PassportElementBankStatement,
    PassportElementDriverLicense, PassportElementEmailAddress, PassportElementError,
    PassportElementErrorSource, PassportElementErrorSourceDataField,
    PassportElementErrorSourceFile, PassportElementErrorSourceFiles,
    PassportElementErrorSourceFrontSide, PassportElementErrorSourceReverseSide,
    PassportElementErrorSourceSelfie, PassportElementErrorSourceTranslationFile,
    PassportElementErrorSourceTranslationFiles, PassportElementErrorSourceUnspecified,
    PassportElementIdentityCard, PassportElementInternalPassport, PassportElementPassport,
    PassportElementPassportRegistration, PassportElementPersonalDetails,
    PassportElementPhoneNumber, PassportElementRentalAgreement,
    PassportElementTemporaryRegistration, PassportElementType, PassportElementTypeAddress,
    PassportElementTypeBankStatement, PassportElementTypeDriverLicense,
    PassportElementTypeEmailAddress, PassportElementTypeIdentityCard,
    PassportElementTypeInternalPassport, PassportElementTypePassport,
    PassportElementTypePassportRegistration, PassportElementTypePersonalDetails,
    PassportElementTypePhoneNumber, PassportElementTypeRentalAgreement,
    PassportElementTypeTemporaryRegistration, PassportElementTypeUtilityBill,
    PassportElementUtilityBill, PassportElements, PassportElementsWithErrors,
    PassportRequiredElement, PassportSuitableElement, PersonalDetails, PersonalDocument,
};
pub use self::content::{
    InputMessageAnimation, InputMessageAudio, InputMessageContact, InputMessageContent,
    InputMessageDocument, InputMessageForwarded, InputMessageGame, InputMessageInvoice,
    InputMessageLocation, InputMessagePhoto, InputMessagePoll, InputMessageSticker,
    InputMessageText, InputMessageVenue, InputMessageVideo, InputMessageVideoNote,
    InputMessageVoiceNote, InputThumbnail, MessageAnimation, MessageAudio,
    MessageBasicGroupChatCreate, MessageCall, MessageChatAddMembers, MessageChatChangePhoto,
    MessageChatChangeTitle, MessageChatDeleteMember, MessageChatDeletePhoto,
    MessageChatJoinByLink, MessageChatSetTtl, MessageChatUpgradeFrom, MessageChatUpgradeTo,
    MessageContact, MessageContactRegistered, MessageContent, MessageCustomServiceAction,
    MessageDocument, MessageExpiredPhoto, MessageExpiredVideo, MessageGame, MessageGameScore,
    MessageInvoice, MessageLocation, MessagePassportDataReceived, MessagePassportDataSent,
    MessagePaymentSuccessful, MessagePaymentSuccessfulBot, MessagePhoto, MessagePinMessage,
    MessagePoll, MessageSchedulingState, MessageSchedulingStateSendAtDate,
    MessageSchedulingStateSendWhenOnline, MessageScreenshotTaken, MessageSticker,
    MessageSupergroupChatCreate, MessageText, MessageUnsupported, MessageVenue, MessageVideo,
    MessageVideoNote, MessageVoiceNote, MessageWebsiteConnected, SendMessageOptions,
    TextEntityType, TextEntityTypeBold, TextEntityTypeBotCommand, TextEntityTypeCashtag,
    TextEntityTypeCode, TextEntityTypeEmailAddress, TextEntityTypeHashtag, TextEntityTypeItalic,
    TextEntityTypeMention, TextEntityTypeMentionName, TextEntityTypePhoneNumber,
    TextEntityTypePre, TextEntityTypePreCode, TextEntityTypeStrikethrough, TextEntityTypeTextUrl,
    TextEntityTypeUnderline, TextEntityTypeUrl,
};
pub use self::actions::{
    ChatAction, ChatActionCancel, ChatActionChoosingContact, ChatActionChoosingLocation,
    ChatActionRecordingVideo, ChatActionRecordingVideoNote, ChatActionRecordingVoiceNote,
    ChatActionStartPlayingGame, ChatActionTyping, ChatActionUploadingDocument,
    ChatActionUploadingPhoto, ChatActionUploadingVideo, ChatActionUploadingVideoNote,
    ChatActionUploadingVoiceNote, Emojis, SearchMessagesFilter, SearchMessagesFilterAnimation,
    SearchMessagesFilterAudio, SearchMessagesFilterCall, SearchMessagesFilterChatPhoto,
    SearchMessagesFilterDocument, SearchMessagesFilterEmpty, SearchMessagesFilterMention,
    SearchMessagesFilterMissedCall, SearchMessagesFilterPhoto, SearchMessagesFilterPhotoAndVideo,
    SearchMessagesFilterUnreadMention, SearchMessagesFilterUrl, SearchMessagesFilterVideo,
    SearchMessagesFilterVideoNote, SearchMessagesFilterVoiceAndVideoNote,
    SearchMessagesFilterVoiceNote, StickerSet, StickerSetInfo, StickerSets, Stickers, UserStatus,
    UserStatusEmpty, UserStatusLastMonth, UserStatusLastWeek, UserStatusOffline, UserStatusOnline,
    UserStatusRecently,
};
pub use self::calls::{
    Animations, Call, CallConnection, CallDiscardReason, CallDiscardReasonDeclined,
    CallDiscardReasonDisconnected, CallDiscardReasonEmpty, CallDiscardReasonHungUp,
    CallDiscardReasonMissed, CallId, CallProblem, CallProblemDistortedSpeech, CallProblemDropped,
    CallProblemEcho, CallProblemInterruptions, CallProblemNoise, CallProblemSilentLocal,
    CallProblemSilentRemote, CallProtocol, CallState, CallStateDiscarded, CallStateError,
    CallStateExchangingKeys, CallStateHangingUp, CallStatePending, CallStateReady, HttpUrl,
    ImportedContacts, PhoneNumberAuthenticationSettings,
};
pub use self::inline::{
    CallbackQueryAnswer, CallbackQueryPayload, CallbackQueryPayloadData, CallbackQueryPayloadGame,
    CustomRequestResult, GameHighScore, GameHighScores, InlineQueryResult,
    InlineQueryResultAnimation, InlineQueryResultArticle, InlineQueryResultAudio,
    InlineQueryResultContact, InlineQueryResultDocument, InlineQueryResultGame,
    InlineQueryResultLocation, InlineQueryResultPhoto, InlineQueryResultSticker,
    InlineQueryResultVenue, InlineQueryResultVideo, InlineQueryResultVoiceNote,
    InlineQueryResults, InputInlineQueryResult, InputInlineQueryResultAnimatedGif,
    InputInlineQueryResultAnimatedMpeg4, InputInlineQueryResultArticle,
    InputInlineQueryResultAudio, InputInlineQueryResultContact, InputInlineQueryResultDocument,
    InputInlineQueryResultGame, InputInlineQueryResultLocation, InputInlineQueryResultPhoto,
    InputInlineQueryResultSticker, InputInlineQueryResultVenue, InputInlineQueryResultVideo,
    InputInlineQueryResultVoiceNote,
};
pub use self::events::{
    ChatEvent, ChatEventAction, ChatEventDescriptionChanged, ChatEventInvitesToggled,
    ChatEventIsAllHistoryAvailableToggled, ChatEventLinkedChatChanged, ChatEventLocationChanged,
    ChatEventLogFilters, ChatEventMemberInvited, ChatEventMemberJoined, ChatEventMemberLeft,
    ChatEventMemberPromoted, ChatEventMemberRestricted, ChatEventMessageDeleted,
    ChatEventMessageEdited, ChatEventMessagePinned, ChatEventMessageUnpinned,
    ChatEventPermissionsChanged, ChatEventPhotoChanged, ChatEventPollStopped,
    ChatEventSignMessagesToggled, ChatEventSlowModeDelayChanged, ChatEventStickerSetChanged,
    ChatEventTitleChanged, ChatEventUsernameChanged, ChatEvents,
};
pub use self::settings::{
    Background, BackgroundFill, BackgroundFillGradient, BackgroundFillSolid, BackgroundType,
    BackgroundTypeFill, BackgroundTypePattern, BackgroundTypeWallpaper, Backgrounds,
    CanTransferOwnershipResult, CanTransferOwnershipResultOk,
    CanTransferOwnershipResultPasswordNeeded, CanTransferOwnershipResultPasswordTooFresh,
    CanTransferOwnershipResultSessionTooFresh, CheckChatUsernameResult, CheckChatUsernameResultOk,
    CheckChatUsernameResultPublicChatsTooMuch, CheckChatUsernameResultPublicGroupsUnavailable,
    CheckChatUsernameResultUsernameInvalid, CheckChatUsernameResultUsernameOccupied, DeviceToken,
    DeviceTokenApplePush, DeviceTokenApplePushVoIP, DeviceTokenBlackBerryPush,
    DeviceTokenFirebaseCloudMessaging, DeviceTokenMicrosoftPush, DeviceTokenMicrosoftPushVoIP,
    DeviceTokenSimplePush, DeviceTokenTizenPush, DeviceTokenUbuntuPush, DeviceTokenWebPush,
    DeviceTokenWindowsPush, Hashtags, InputBackground, InputBackgroundLocal,
    InputBackgroundRemote, LanguagePackInfo, LanguagePackString, LanguagePackStringValue,
    LanguagePackStringValueDeleted, LanguagePackStringValueOrdinary,
    LanguagePackStringValuePluralized, LanguagePackStrings, LocalizationTargetInfo,
    PushReceiverId,
};
pub use self::notifications::{
    Notification, NotificationGroup, NotificationGroupType, NotificationGroupTypeCalls,
    NotificationGroupTypeMentions, NotificationGroupTypeMessages, NotificationGroupTypeSecretChat,
    NotificationType, NotificationTypeNewCall, NotificationTypeNewMessage,
    NotificationTypeNewPushMessage, NotificationTypeNewSecretChat, PushMessageContent,
    PushMessageContentAnimation, PushMessageContentAudio, PushMessageContentBasicGroupChatCreate,
    PushMessageContentChatAddMembers, PushMessageContentChatChangePhoto,
    PushMessageContentChatChangeTitle, PushMessageContentChatDeleteMember,
    PushMessageContentChatJoinByLink, PushMessageContentContact,
    PushMessageContentContactRegistered, PushMessageContentDocument, PushMessageContentGame,
    PushMessageContentGameScore, PushMessageContentHidden, PushMessageContentInvoice,
    PushMessageContentLocation, PushMessageContentMediaAlbum, PushMessageContentMessageForwards,
    PushMessageContentPhoto, PushMessageContentPoll, PushMessageContentScreenshotTaken,
    PushMessageContentSticker, PushMessageContentText, PushMessageContentVideo,
    PushMessageContentVideoNote, PushMessageContentVoiceNote,
};
pub use self::privacy::{
    AccountTtl, ChatReportReason, ChatReportReasonChildAbuse, ChatReportReasonCopyright,
    ChatReportReasonCustom, ChatReportReasonPornography, ChatReportReasonSpam,
    ChatReportReasonUnrelatedLocation, ChatReportReasonViolence, ConnectedWebsite,
    ConnectedWebsites, FilePart, JsonObjectMember, JsonValue, JsonValueArray, JsonValueBoolean,
    JsonValueNull, JsonValueNumber, JsonValueObject, JsonValueString, MessageLinkInfo,
    OptionValue, OptionValueBoolean, OptionValueEmpty, OptionValueInteger, OptionValueString,
    PublicMessageLink, Session, Sessions, UserPrivacySetting, UserPrivacySettingAllowCalls,
    UserPrivacySettingAllowChatInvites, UserPrivacySettingAllowFindingByPhoneNumber,
    UserPrivacySettingAllowPeerToPeerCalls, UserPrivacySettingRule,
    UserPrivacySettingRuleAllowAll, UserPrivacySettingRuleAllowChatMembers,
    UserPrivacySettingRuleAllowContacts, UserPrivacySettingRuleAllowUsers,
    UserPrivacySettingRuleRestrictAll, UserPrivacySettingRuleRestrictChatMembers,
    UserPrivacySettingRuleRestrictContacts, UserPrivacySettingRuleRestrictUsers,
    UserPrivacySettingRules, UserPrivacySettingShowLinkInForwardedMessages,
    UserPrivacySettingShowPhoneNumber, UserPrivacySettingShowProfilePhoto,
    UserPrivacySettingShowStatus,
};
pub use self::network::{
    AutoDownloadSettings, AutoDownloadSettingsPresets, ConnectionState, ConnectionStateConnecting,
    ConnectionStateConnectingToProxy, ConnectionStateReady, ConnectionStateUpdating,
    ConnectionStateWaitingForNetwork, Count, DatabaseStatistics, DeepLinkInfo, FileType,
    FileTypeAnimation, FileTypeAudio, FileTypeDocument, FileTypeNone, FileTypePhoto,
    FileTypeProfilePhoto, FileTypeSecret, FileTypeSecretThumbnail, FileTypeSecure,
    FileTypeSticker, FileTypeThumbnail, FileTypeUnknown, FileTypeVideo, FileTypeVideoNote,
    FileTypeVoiceNote, FileTypeWallpaper, InputSticker, NetworkStatistics, NetworkStatisticsEntry,
    NetworkStatisticsEntryCall, NetworkStatisticsEntryFile, NetworkType, NetworkTypeMobile,
    NetworkTypeMobileRoaming, NetworkTypeNone, NetworkTypeOther, NetworkTypeWiFi, Proxies, Proxy,
    ProxyType, ProxyTypeHttp, ProxyTypeMtproto, ProxyTypeSocks5, Seconds, StorageStatistics,
    StorageStatisticsByChat, StorageStatisticsByFileType, StorageStatisticsFast, TMeUrl,
    TMeUrlType, TMeUrlTypeChatInvite, TMeUrlTypeStickerSet, TMeUrlTypeSupergroup, TMeUrlTypeUser,
    TMeUrls, Text, TextParseMode, TextParseModeHTML, TextParseModeMarkdown, TopChatCategory,
    TopChatCategoryBots, TopChatCategoryCalls, TopChatCategoryChannels,
    TopChatCategoryForwardChats, TopChatCategoryGroups, TopChatCategoryInlineBots,
    TopChatCategoryUsers,
};
pub use self::updates::{
    Update, UpdateActiveNotifications, UpdateAuthorizationState, UpdateBasicGroup,
    UpdateBasicGroupFullInfo, UpdateCall, UpdateChatActionBar, UpdateChatChatList,
    UpdateChatDefaultDisableNotification, UpdateChatDraftMessage, UpdateChatHasScheduledMessages,
    UpdateChatIsMarkedAsUnread, UpdateChatIsPinned, UpdateChatIsSponsored, UpdateChatLastMessage,
    UpdateChatNotificationSettings, UpdateChatOnlineMemberCount, UpdateChatOrder,
    UpdateChatPermissions, UpdateChatPhoto, UpdateChatPinnedMessage, UpdateChatReadInbox,
    UpdateChatReadOutbox, UpdateChatReplyMarkup, UpdateChatTitle, UpdateChatUnreadMentionCount,
    UpdateConnectionState, UpdateDeleteMessages, UpdateFavoriteStickers, UpdateFile,
    UpdateFileGenerationStart, UpdateFileGenerationStop, UpdateHavePendingNotifications,
    UpdateInstalledStickerSets, UpdateLanguagePackStrings, UpdateMessageContent,
    UpdateMessageContentOpened, UpdateMessageEdited, UpdateMessageLiveLocationViewed,
    UpdateMessageMentionRead, UpdateMessageSendAcknowledged, UpdateMessageSendFailed,
    UpdateMessageSendSucceeded, UpdateMessageViews, UpdateNewCallbackQuery, UpdateNewChat,
    UpdateNewChosenInlineResult, UpdateNewCustomEvent, UpdateNewCustomQuery,
    UpdateNewInlineCallbackQuery, UpdateNewInlineQuery, UpdateNewMessage,
    UpdateNewPreCheckoutQuery, UpdateNewShippingQuery, UpdateNotification,
    UpdateNotificationGroup, UpdateOption, UpdatePoll, UpdatePollAnswer, UpdateRecentStickers,
    UpdateSavedAnimations, UpdateScopeNotificationSettings, UpdateSecretChat,
    UpdateSelectedBackground, UpdateServiceNotification, UpdateSupergroup,
    UpdateSupergroupFullInfo, UpdateTermsOfService, UpdateTrendingStickerSets,
    UpdateUnreadChatCount, UpdateUnreadMessageCount, UpdateUser, UpdateUserChatAction,
    UpdateUserFullInfo, UpdateUserPrivacySettingRules, UpdateUserStatus, UpdateUsersNearby,
    Updates,
};
pub use self::testing::{
    LogStream, LogStreamDefault, LogStreamEmpty, LogStreamFile, LogTags, LogVerbosityLevel,
    TestBytes, TestInt, TestString, TestVectorInt, TestVectorIntObject, TestVectorString,
    TestVectorStringObject,
};
pub use self::response::{
    Response,
};
