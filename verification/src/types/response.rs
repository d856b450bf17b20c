//! The envelope: any object that the library can send.

use vstd::prelude::*;
use crate::codec::{discriminator, members_of, Tagged, Union, Wire};
use crate::error::{DecodeError, Fault};
use crate::json::{Doc, Json, tag_of};
use crate::text::same_text;
use crate::types::{
    AccountTtl, Address, Animation, Animations, Audio, AuthenticationCodeInfo,
    AuthenticationCodeType, AuthorizationState, AutoDownloadSettings, AutoDownloadSettingsPresets,
    Background, BackgroundFill, BackgroundType, Backgrounds, BasicGroup, BasicGroupFullInfo,
    BotCommand, BotInfo, Call, CallConnection, CallDiscardReason, CallId, CallProblem,
    CallProtocol, CallState, CallbackQueryAnswer, CallbackQueryPayload,
    CanTransferOwnershipResult, Chat, ChatAction, ChatActionBar, ChatAdministrator,
    ChatAdministrators, ChatEvent, ChatEventAction, ChatEventLogFilters, ChatEvents,
    ChatInviteLink, ChatInviteLinkInfo, ChatList, ChatLocation, ChatMember, ChatMemberStatus,
    ChatMembers, ChatMembersFilter, ChatNearby, ChatNotificationSettings, ChatPermissions,
    ChatPhoto, ChatReportReason, ChatType, Chats, ChatsNearby, CheckChatUsernameResult,
    ConnectedWebsite, ConnectedWebsites, ConnectionState, Contact, Count, CustomRequestResult,
    DatabaseStatistics, Date, DatedFile, DeepLinkInfo, DeviceToken, Document, DraftMessage,
    EmailAddressAuthenticationCodeInfo, Emojis, EncryptedCredentials, EncryptedPassportElement,
    Error, File, FilePart, FileType, FormattedText, FoundMessages, Game, GameHighScore,
    GameHighScores, Hashtags, HttpUrl, IdentityDocument, ImportedContacts, InlineKeyboardButton,
    InlineKeyboardButtonType, InlineQueryResult, InlineQueryResults, InputBackground,
    InputCredentials, InputFile, InputIdentityDocument, InputInlineQueryResult,
    InputMessageContent, InputPassportElement, InputPassportElementError,
    InputPassportElementErrorSource, InputPersonalDocument, InputSticker, InputThumbnail, Invoice,
    JsonObjectMember, JsonValue, KeyboardButton, KeyboardButtonType, LabeledPricePart,
    LanguagePackInfo, LanguagePackString, LanguagePackStringValue, LanguagePackStrings, LocalFile,
    LocalizationTargetInfo, Location, LogStream, LogTags, LogVerbosityLevel, LoginUrlInfo,
    MaskPoint, MaskPosition, Message, MessageContent, MessageForwardInfo, MessageForwardOrigin,
    MessageLinkInfo, MessageSchedulingState, MessageSendingState, Messages, Minithumbnail,
    NetworkStatistics, NetworkStatisticsEntry, NetworkType, Notification, NotificationGroup,
    NotificationGroupType, NotificationSettingsScope, NotificationType, Okay, OptionValue,
    OrderInfo, PageBlock, PageBlockCaption, PageBlockHorizontalAlignment, PageBlockListItem,
    PageBlockRelatedArticle, PageBlockTableCell, PageBlockVerticalAlignment,
    PassportAuthorizationForm, PassportElement, PassportElementError, PassportElementErrorSource,
    PassportElementType, PassportElements, PassportElementsWithErrors, PassportRequiredElement,
    PassportSuitableElement, PasswordState, PaymentForm, PaymentReceipt, PaymentResult,
    PaymentsProviderStripe, PersonalDetails, PersonalDocument, PhoneNumberAuthenticationSettings,
    Photo, PhotoSize, Poll, PollOption, PollType, ProfilePhoto, Proxies, Proxy, ProxyType,
    PublicChatType, PublicMessageLink, PushMessageContent, PushReceiverId, RecoveryEmailAddress,
    RemoteFile, ReplyMarkup, RichText, SavedCredentials, ScopeNotificationSettings,
    SearchMessagesFilter, Seconds, SecretChat, SecretChatState, SendMessageOptions, Session,
    Sessions, ShippingOption, Sticker, StickerSet, StickerSetInfo, StickerSets, Stickers,
    StorageStatistics, StorageStatisticsByChat, StorageStatisticsByFileType,
    StorageStatisticsFast, Supergroup, SupergroupFullInfo, SupergroupMembersFilter, TMeUrl,
    TMeUrlType, TMeUrls, TdlibParameters, TemporaryPasswordState, TermsOfService, TestBytes,
    TestInt, TestString, TestVectorInt, TestVectorIntObject, TestVectorString,
    TestVectorStringObject, Text, TextEntities, TextEntity, TextEntityType, TextParseMode,
    TopChatCategory, UpdateActiveNotifications, UpdateAuthorizationState, UpdateBasicGroup,
    UpdateBasicGroupFullInfo, UpdateCall, UpdateChatActionBar, UpdateChatChatList,
    UpdateChatDefaultDisableNotification, UpdateChatDraftMessage, UpdateChatHasScheduledMessages,
    UpdateChatIsMarkedAsUnread, UpdateChatIsPinned, UpdateChatIsSponsored, UpdateChatLastMessage,
    UpdateChatNotificationSettings, UpdateChatOnlineMemberCount, UpdateChatOrder,
    UpdateChatPermissions, UpdateChatPhoto, UpdateChatPinnedMessage, UpdateChatReadInbox,
    UpdateChatReadOutbox, UpdateChatReplyMarkup, UpdateChatTitle, UpdateChatUnreadMentionCount,
    UpdateConnectionState, UpdateDeleteMessages, UpdateFavoriteStickers, UpdateFile,
    UpdateFileGenerationStart, UpdateFileGenerationStop, UpdateHavePendingNotifications,
    UpdateInstalledStickerSets, UpdateLanguagePackStrings, UpdateMessageContent,
    UpdateMessageContentOpened, UpdateMessageEdited, UpdateMessageLiveLocationViewed,
    UpdateMessageMentionRead, UpdateMessageSendAcknowledged, UpdateMessageSendFailed,
    UpdateMessageSendSucceeded, UpdateMessageViews, UpdateNewCallbackQuery, UpdateNewChat,
    UpdateNewChosenInlineResult, UpdateNewCustomEvent, UpdateNewCustomQuery,
    UpdateNewInlineCallbackQuery, UpdateNewInlineQuery, UpdateNewMessage,
    UpdateNewPreCheckoutQuery, UpdateNewShippingQuery, UpdateNotification,
    UpdateNotificationGroup, UpdateOption, UpdatePoll, UpdatePollAnswer, UpdateRecentStickers,
    UpdateSavedAnimations, UpdateScopeNotificationSettings, UpdateSecretChat,
    UpdateSelectedBackground, UpdateServiceNotification, UpdateSupergroup,
    UpdateSupergroupFullInfo, UpdateTermsOfService, UpdateTrendingStickerSets,
    UpdateUnreadChatCount, UpdateUnreadMessageCount, UpdateUser, UpdateUserChatAction,
    UpdateUserFullInfo, UpdateUserPrivacySettingRules, UpdateUserStatus, UpdateUsersNearby,
    Updates, User, UserFullInfo, UserPrivacySetting, UserPrivacySettingRule,
    UserPrivacySettingRules, UserProfilePhoto, UserProfilePhotos, UserStatus, UserType, Users,
    ValidatedOrderInfo, Venue, Video, VideoNote, VoiceNote, WebPage, WebPageInstantView,
};

verus! {

/// Any object that the library can send: the answer to a request, or an update that nobody
/// asked for. A receiver decodes every incoming message as a `Response` first, and then looks
/// at the variant that came out.
#[derive(Debug, Clone, PartialEq)]
pub enum Response {
    Error(Error),
    Okay(Okay),
    TdlibParameters(TdlibParameters),
    AuthenticationCodeType(AuthenticationCodeType),
    AuthenticationCodeInfo(AuthenticationCodeInfo),
    EmailAddressAuthenticationCodeInfo(EmailAddressAuthenticationCodeInfo),
    TextEntity(TextEntity),
    TextEntities(TextEntities),
    FormattedText(FormattedText),
    TermsOfService(TermsOfService),
    AuthorizationState(AuthorizationState),
    PasswordState(PasswordState),
    RecoveryEmailAddress(RecoveryEmailAddress),
    TemporaryPasswordState(TemporaryPasswordState),
    LocalFile(LocalFile),
    RemoteFile(RemoteFile),
    File(File),
    InputFile(InputFile),
    PhotoSize(PhotoSize),
    Minithumbnail(Minithumbnail),
    MaskPoint(MaskPoint),
    MaskPosition(MaskPosition),
    PollOption(PollOption),
    PollType(PollType),
    Animation(Animation),
    Audio(Audio),
    Document(Document),
    Photo(Photo),
    Sticker(Sticker),
    Video(Video),
    VideoNote(VideoNote),
    VoiceNote(VoiceNote),
    Contact(Contact),
    Location(Location),
    Venue(Venue),
    Game(Game),
    Poll(Poll),
    ProfilePhoto(ProfilePhoto),
    ChatPhoto(ChatPhoto),
    UserType(UserType),
    BotCommand(BotCommand),
    BotInfo(BotInfo),
    ChatLocation(ChatLocation),
    User(User),
    UserFullInfo(UserFullInfo),
    UserProfilePhoto(UserProfilePhoto),
    UserProfilePhotos(UserProfilePhotos),
    Users(Users),
    ChatAdministrator(ChatAdministrator),
    ChatAdministrators(ChatAdministrators),
    ChatPermissions(ChatPermissions),
    ChatMemberStatus(ChatMemberStatus),
    ChatMember(ChatMember),
    ChatMembers(ChatMembers),
    ChatMembersFilter(ChatMembersFilter),
    SupergroupMembersFilter(SupergroupMembersFilter),
    BasicGroup(BasicGroup),
    BasicGroupFullInfo(BasicGroupFullInfo),
    Supergroup(Supergroup),
    SupergroupFullInfo(SupergroupFullInfo),
    SecretChatState(SecretChatState),
    SecretChat(SecretChat),
    MessageForwardOrigin(MessageForwardOrigin),
    MessageForwardInfo(MessageForwardInfo),
    MessageSendingState(MessageSendingState),
    Message(Message),
    Messages(Messages),
    FoundMessages(FoundMessages),
    NotificationSettingsScope(NotificationSettingsScope),
    ChatNotificationSettings(ChatNotificationSettings),
    ScopeNotificationSettings(ScopeNotificationSettings),
    DraftMessage(DraftMessage),
    ChatType(ChatType),
    ChatList(ChatList),
    Chat(Chat),
    Chats(Chats),
    ChatNearby(ChatNearby),
    ChatsNearby(ChatsNearby),
    ChatInviteLink(ChatInviteLink),
    ChatInviteLinkInfo(ChatInviteLinkInfo),
    PublicChatType(PublicChatType),
    ChatActionBar(ChatActionBar),
    KeyboardButtonType(KeyboardButtonType),
    KeyboardButton(KeyboardButton),
    InlineKeyboardButtonType(InlineKeyboardButtonType),
    InlineKeyboardButton(InlineKeyboardButton),
    ReplyMarkup(ReplyMarkup),
    LoginUrlInfo(LoginUrlInfo),
    RichText(RichText),
    PageBlockCaption(PageBlockCaption),
    PageBlockListItem(PageBlockListItem),
    PageBlockHorizontalAlignment(PageBlockHorizontalAlignment),
    PageBlockVerticalAlignment(PageBlockVerticalAlignment),
    PageBlockTableCell(PageBlockTableCell),
    PageBlockRelatedArticle(PageBlockRelatedArticle),
    PageBlock(PageBlock),
    WebPageInstantView(WebPageInstantView),
    WebPage(WebPage),
    Address(Address),
    LabeledPricePart(LabeledPricePart),
    Invoice(Invoice),
    OrderInfo(OrderInfo),
    ShippingOption(ShippingOption),
    SavedCredentials(SavedCredentials),
    InputCredentials(InputCredentials),
    PaymentsProviderStripe(PaymentsProviderStripe),
    PaymentForm(PaymentForm),
    ValidatedOrderInfo(ValidatedOrderInfo),
    PaymentResult(PaymentResult),
    PaymentReceipt(PaymentReceipt),
    DatedFile(DatedFile),
    PassportElementType(PassportElementType),
    Date(Date),
    PersonalDetails(PersonalDetails),
    IdentityDocument(IdentityDocument),
    InputIdentityDocument(InputIdentityDocument),
    PersonalDocument(PersonalDocument),
    InputPersonalDocument(InputPersonalDocument),
    PassportElement(PassportElement),
    InputPassportElement(InputPassportElement),
    PassportElements(PassportElements),
    PassportElementErrorSource(PassportElementErrorSource),
    PassportElementError(PassportElementError),
    PassportSuitableElement(PassportSuitableElement),
    PassportRequiredElement(PassportRequiredElement),
    PassportAuthorizationForm(PassportAuthorizationForm),
    PassportElementsWithErrors(PassportElementsWithErrors),
    EncryptedCredentials(EncryptedCredentials),
    EncryptedPassportElement(EncryptedPassportElement),
    InputPassportElementErrorSource(InputPassportElementErrorSource),
    InputPassportElementError(InputPassportElementError),
    MessageContent(MessageContent),
    TextEntityType(TextEntityType),
    InputThumbnail(InputThumbnail),
    MessageSchedulingState(MessageSchedulingState),
    SendMessageOptions(SendMessageOptions),
    InputMessageContent(InputMessageContent),
    SearchMessagesFilter(SearchMessagesFilter),
    ChatAction(ChatAction),
    UserStatus(UserStatus),
    Stickers(Stickers),
    Emojis(Emojis),
    StickerSet(StickerSet),
    StickerSetInfo(StickerSetInfo),
    StickerSets(StickerSets),
    CallDiscardReason(CallDiscardReason),
    CallProtocol(CallProtocol),
    CallConnection(CallConnection),
    CallId(CallId),
    CallState(CallState),
    CallProblem(CallProblem),
    Call(Call),
    PhoneNumberAuthenticationSettings(PhoneNumberAuthenticationSettings),
    Animations(Animations),
    ImportedContacts(ImportedContacts),
    HttpUrl(HttpUrl),
    InputInlineQueryResult(InputInlineQueryResult),
    InlineQueryResult(InlineQueryResult),
    InlineQueryResults(InlineQueryResults),
    CallbackQueryPayload(CallbackQueryPayload),
    CallbackQueryAnswer(CallbackQueryAnswer),
    CustomRequestResult(CustomRequestResult),
    GameHighScore(GameHighScore),
    GameHighScores(GameHighScores),
    ChatEventAction(ChatEventAction),
    ChatEvent(ChatEvent),
    ChatEvents(ChatEvents),
    ChatEventLogFilters(ChatEventLogFilters),
    LanguagePackStringValue(LanguagePackStringValue),
    LanguagePackString(LanguagePackString),
    LanguagePackStrings(LanguagePackStrings),
    LanguagePackInfo(LanguagePackInfo),
    LocalizationTargetInfo(LocalizationTargetInfo),
    DeviceToken(DeviceToken),
    PushReceiverId(PushReceiverId),
    BackgroundFill(BackgroundFill),
    BackgroundType(BackgroundType),
    Background(Background),
    Backgrounds(Backgrounds),
    InputBackground(InputBackground),
    Hashtags(Hashtags),
    CanTransferOwnershipResult(CanTransferOwnershipResult),
    CheckChatUsernameResult(CheckChatUsernameResult),
    PushMessageContent(PushMessageContent),
    NotificationType(NotificationType),
    NotificationGroupType(NotificationGroupType),
    Notification(Notification),
    NotificationGroup(NotificationGroup),
    OptionValue(OptionValue),
    JsonObjectMember(JsonObjectMember),
    JsonValue(JsonValue),
    UserPrivacySettingRule(UserPrivacySettingRule),
    UserPrivacySettingRules(UserPrivacySettingRules),
    UserPrivacySetting(UserPrivacySetting),
    AccountTtl(AccountTtl),
    Session(Session),
    Sessions(Sessions),
    ConnectedWebsite(ConnectedWebsite),
    ConnectedWebsites(ConnectedWebsites),
    ChatReportReason(ChatReportReason),
    PublicMessageLink(PublicMessageLink),
    MessageLinkInfo(MessageLinkInfo),
    FilePart(FilePart),
    FileType(FileType),
    StorageStatisticsByFileType(StorageStatisticsByFileType),
    StorageStatisticsByChat(StorageStatisticsByChat),
    StorageStatistics(StorageStatistics),
    StorageStatisticsFast(StorageStatisticsFast),
    DatabaseStatistics(DatabaseStatistics),
    NetworkType(NetworkType),
    NetworkStatisticsEntry(NetworkStatisticsEntry),
    NetworkStatistics(NetworkStatistics),
    AutoDownloadSettings(AutoDownloadSettings),
    AutoDownloadSettingsPresets(AutoDownloadSettingsPresets),
    ConnectionState(ConnectionState),
    TopChatCategory(TopChatCategory),
    TMeUrlType(TMeUrlType),
    TMeUrl(TMeUrl),
    TMeUrls(TMeUrls),
    Count(Count),
    Text(Text),
    Seconds(Seconds),
    DeepLinkInfo(DeepLinkInfo),
    TextParseMode(TextParseMode),
    ProxyType(ProxyType),
    Proxy(Proxy),
    Proxies(Proxies),
    InputSticker(InputSticker),
    UpdateAuthorizationState(UpdateAuthorizationState),
    UpdateNewMessage(UpdateNewMessage),
    UpdateMessageSendAcknowledged(UpdateMessageSendAcknowledged),
    UpdateMessageSendSucceeded(UpdateMessageSendSucceeded),
    UpdateMessageSendFailed(UpdateMessageSendFailed),
    UpdateMessageContent(UpdateMessageContent),
    UpdateMessageEdited(UpdateMessageEdited),
    UpdateMessageViews(UpdateMessageViews),
    UpdateMessageContentOpened(UpdateMessageContentOpened),
    UpdateMessageMentionRead(UpdateMessageMentionRead),
    UpdateMessageLiveLocationViewed(UpdateMessageLiveLocationViewed),
    UpdateNewChat(UpdateNewChat),
    UpdateChatChatList(UpdateChatChatList),
    UpdateChatTitle(UpdateChatTitle),
    UpdateChatPhoto(UpdateChatPhoto),
    UpdateChatPermissions(UpdateChatPermissions),
    UpdateChatLastMessage(UpdateChatLastMessage),
    UpdateChatOrder(UpdateChatOrder),
    UpdateChatIsPinned(UpdateChatIsPinned),
    UpdateChatIsMarkedAsUnread(UpdateChatIsMarkedAsUnread),
    UpdateChatIsSponsored(UpdateChatIsSponsored),
    UpdateChatHasScheduledMessages(UpdateChatHasScheduledMessages),
    UpdateChatDefaultDisableNotification(UpdateChatDefaultDisableNotification),
    UpdateChatReadInbox(UpdateChatReadInbox),
    UpdateChatReadOutbox(UpdateChatReadOutbox),
    UpdateChatUnreadMentionCount(UpdateChatUnreadMentionCount),
    UpdateChatNotificationSettings(UpdateChatNotificationSettings),
    UpdateScopeNotificationSettings(UpdateScopeNotificationSettings),
    UpdateChatActionBar(UpdateChatActionBar),
    UpdateChatPinnedMessage(UpdateChatPinnedMessage),
    UpdateChatReplyMarkup(UpdateChatReplyMarkup),
    UpdateChatDraftMessage(UpdateChatDraftMessage),
    UpdateChatOnlineMemberCount(UpdateChatOnlineMemberCount),
    UpdateNotification(UpdateNotification),
    UpdateNotificationGroup(UpdateNotificationGroup),
    UpdateActiveNotifications(UpdateActiveNotifications),
    UpdateHavePendingNotifications(UpdateHavePendingNotifications),
    UpdateDeleteMessages(UpdateDeleteMessages),
    UpdateUserChatAction(UpdateUserChatAction),
    UpdateUserStatus(UpdateUserStatus),
    UpdateUser(UpdateUser),
    UpdateBasicGroup(UpdateBasicGroup),
    UpdateSupergroup(UpdateSupergroup),
    UpdateSecretChat(UpdateSecretChat),
    UpdateUserFullInfo(UpdateUserFullInfo),
    UpdateBasicGroupFullInfo(UpdateBasicGroupFullInfo),
    UpdateSupergroupFullInfo(UpdateSupergroupFullInfo),
    UpdateServiceNotification(UpdateServiceNotification),
    UpdateFile(UpdateFile),
    UpdateFileGenerationStart(UpdateFileGenerationStart),
    UpdateFileGenerationStop(UpdateFileGenerationStop),
    UpdateCall(UpdateCall),
    UpdateUserPrivacySettingRules(UpdateUserPrivacySettingRules),
    UpdateUnreadMessageCount(UpdateUnreadMessageCount),
    UpdateUnreadChatCount(UpdateUnreadChatCount),
    UpdateOption(UpdateOption),
    UpdateInstalledStickerSets(UpdateInstalledStickerSets),
    UpdateTrendingStickerSets(UpdateTrendingStickerSets),
    UpdateRecentStickers(UpdateRecentStickers),
    UpdateFavoriteStickers(UpdateFavoriteStickers),
    UpdateSavedAnimations(UpdateSavedAnimations),
    UpdateSelectedBackground(UpdateSelectedBackground),
    UpdateLanguagePackStrings(UpdateLanguagePackStrings),
    UpdateConnectionState(UpdateConnectionState),
    UpdateTermsOfService(UpdateTermsOfService),
    UpdateUsersNearby(UpdateUsersNearby),
    UpdateNewInlineQuery(UpdateNewInlineQuery),
    UpdateNewChosenInlineResult(UpdateNewChosenInlineResult),
    UpdateNewCallbackQuery(UpdateNewCallbackQuery),
    UpdateNewInlineCallbackQuery(UpdateNewInlineCallbackQuery),
    UpdateNewShippingQuery(UpdateNewShippingQuery),
    UpdateNewPreCheckoutQuery(UpdateNewPreCheckoutQuery),
    UpdateNewCustomEvent(UpdateNewCustomEvent),
    UpdateNewCustomQuery(UpdateNewCustomQuery),
    UpdatePoll(UpdatePoll),
    UpdatePollAnswer(UpdatePollAnswer),
    Updates(Updates),
    LogStream(LogStream),
    LogVerbosityLevel(LogVerbosityLevel),
    LogTags(LogTags),
    TestInt(TestInt),
    TestString(TestString),
    TestBytes(TestBytes),
    TestVectorInt(TestVectorInt),
    TestVectorIntObject(TestVectorIntObject),
    TestVectorString(TestVectorString),
    TestVectorStringObject(TestVectorStringObject),
}

impl Wire for Response {
    #[verifier::opaque]
    open spec fn wire(&self) -> Doc {
        match self {
            Self::Error(p) => p.wire(),
            Self::Okay(p) => p.wire(),
            Self::TdlibParameters(p) => p.wire(),
            Self::AuthenticationCodeType(p) => p.wire(),
            Self::AuthenticationCodeInfo(p) => p.wire(),
            Self::EmailAddressAuthenticationCodeInfo(p) => p.wire(),
            Self::TextEntity(p) => p.wire(),
            Self::TextEntities(p) => p.wire(),
            Self::FormattedText(p) => p.wire(),
            Self::TermsOfService(p) => p.wire(),
            Self::AuthorizationState(p) => p.wire(),
            Self::PasswordState(p) => p.wire(),
            Self::RecoveryEmailAddress(p) => p.wire(),
            Self::TemporaryPasswordState(p) => p.wire(),
            Self::LocalFile(p) => p.wire(),
            Self::RemoteFile(p) => p.wire(),
            Self::File(p) => p.wire(),
            Self::InputFile(p) => p.wire(),
            Self::PhotoSize(p) => p.wire(),
            Self::Minithumbnail(p) => p.wire(),
            Self::MaskPoint(p) => p.wire(),
            Self::MaskPosition(p) => p.wire(),
            Self::PollOption(p) => p.wire(),
            Self::PollType(p) => p.wire(),
            Self::Animation(p) => p.wire(),
            Self::Audio(p) => p.wire(),
            Self::Document(p) => p.wire(),
            Self::Photo(p) => p.wire(),
            Self::Sticker(p) => p.wire(),
            Self::Video(p) => p.wire(),
            Self::VideoNote(p) => p.wire(),
            Self::VoiceNote(p) => p.wire(),
            Self::Contact(p) => p.wire(),
            Self::Location(p) => p.wire(),
            Self::Venue(p) => p.wire(),
            Self::Game(p) => p.wire(),
            Self::Poll(p) => p.wire(),
            Self::ProfilePhoto(p) => p.wire(),
            Self::ChatPhoto(p) => p.wire(),
            Self::UserType(p) => p.wire(),
            Self::BotCommand(p) => p.wire(),
            Self::BotInfo(p) => p.wire(),
            Self::ChatLocation(p) => p.wire(),
            Self::User(p) => p.wire(),
            Self::UserFullInfo(p) => p.wire(),
            Self::UserProfilePhoto(p) => p.wire(),
            Self::UserProfilePhotos(p) => p.wire(),
            Self::Users(p) => p.wire(),
            Self::ChatAdministrator(p) => p.wire(),
            Self::ChatAdministrators(p) => p.wire(),
            Self::ChatPermissions(p) => p.wire(),
            Self::ChatMemberStatus(p) => p.wire(),
            Self::ChatMember(p) => p.wire(),
            Self::ChatMembers(p) => p.wire(),
            Self::ChatMembersFilter(p) => p.wire(),
            Self::SupergroupMembersFilter(p) => p.wire(),
            Self::BasicGroup(p) => p.wire(),
            Self::BasicGroupFullInfo(p) => p.wire(),
            Self::Supergroup(p) => p.wire(),
            Self::SupergroupFullInfo(p) => p.wire(),
            Self::SecretChatState(p) => p.wire(),
            Self::SecretChat(p) => p.wire(),
            Self::MessageForwardOrigin(p) => p.wire(),
            Self::MessageForwardInfo(p) => p.wire(),
            Self::MessageSendingState(p) => p.wire(),
            Self::Message(p) => p.wire(),
            Self::Messages(p) => p.wire(),
            Self::FoundMessages(p) => p.wire(),
            Self::NotificationSettingsScope(p) => p.wire(),
            Self::ChatNotificationSettings(p) => p.wire(),
            Self::ScopeNotificationSettings(p) => p.wire(),
            Self::DraftMessage(p) => p.wire(),
            Self::ChatType(p) => p.wire(),
            Self::ChatList(p) => p.wire(),
            Self::Chat(p) => p.wire(),
            Self::Chats(p) => p.wire(),
            Self::ChatNearby(p) => p.wire(),
            Self::ChatsNearby(p) => p.wire(),
            Self::ChatInviteLink(p) => p.wire(),
            Self::ChatInviteLinkInfo(p) => p.wire(),
            Self::PublicChatType(p) => p.wire(),
            Self::ChatActionBar(p) => p.wire(),
            Self::KeyboardButtonType(p) => p.wire(),
            Self::KeyboardButton(p) => p.wire(),
            Self::InlineKeyboardButtonType(p) => p.wire(),
            Self::InlineKeyboardButton(p) => p.wire(),
            Self::ReplyMarkup(p) => p.wire(),
            Self::LoginUrlInfo(p) => p.wire(),
            Self::RichText(p) => p.wire(),
            Self::PageBlockCaption(p) => p.wire(),
            Self::PageBlockListItem(p) => p.wire(),
            Self::PageBlockHorizontalAlignment(p) => p.wire(),
            Self::PageBlockVerticalAlignment(p) => p.wire(),
            Self::PageBlockTableCell(p) => p.wire(),
            Self::PageBlockRelatedArticle(p) => p.wire(),
            Self::PageBlock(p) => p.wire(),
            Self::WebPageInstantView(p) => p.wire(),
            Self::WebPage(p) => p.wire(),
            Self::Address(p) => p.wire(),
            Self::LabeledPricePart(p) => p.wire(),
            Self::Invoice(p) => p.wire(),
            Self::OrderInfo(p) => p.wire(),
            Self::ShippingOption(p) => p.wire(),
            Self::SavedCredentials(p) => p.wire(),
            Self::InputCredentials(p) => p.wire(),
            Self::PaymentsProviderStripe(p) => p.wire(),
            Self::PaymentForm(p) => p.wire(),
            Self::ValidatedOrderInfo(p) => p.wire(),
            Self::PaymentResult(p) => p.wire(),
            Self::PaymentReceipt(p) => p.wire(),
            Self::DatedFile(p) => p.wire(),
            Self::PassportElementType(p) => p.wire(),
            Self::Date(p) => p.wire(),
            Self::PersonalDetails(p) => p.wire(),
            Self::IdentityDocument(p) => p.wire(),
            Self::InputIdentityDocument(p) => p.wire(),
            Self::PersonalDocument(p) => p.wire(),
            Self::InputPersonalDocument(p) => p.wire(),
            Self::PassportElement(p) => p.wire(),
            Self::InputPassportElement(p) => p.wire(),
            Self::PassportElements(p) => p.wire(),
            Self::PassportElementErrorSource(p) => p.wire(),
            Self::PassportElementError(p) => p.wire(),
            Self::PassportSuitableElement(p) => p.wire(),
            Self::PassportRequiredElement(p) => p.wire(),
            Self::PassportAuthorizationForm(p) => p.wire(),
            Self::PassportElementsWithErrors(p) => p.wire(),
            Self::EncryptedCredentials(p) => p.wire(),
            Self::EncryptedPassportElement(p) => p.wire(),
            Self::InputPassportElementErrorSource(p) => p.wire(),
            Self::InputPassportElementError(p) => p.wire(),
            Self::MessageContent(p) => p.wire(),
            Self::TextEntityType(p) => p.wire(),
            Self::InputThumbnail(p) => p.wire(),
            Self::MessageSchedulingState(p) => p.wire(),
            Self::SendMessageOptions(p) => p.wire(),
            Self::InputMessageContent(p) => p.wire(),
            Self::SearchMessagesFilter(p) => p.wire(),
            Self::ChatAction(p) => p.wire(),
            Self::UserStatus(p) => p.wire(),
            Self::Stickers(p) => p.wire(),
            Self::Emojis(p) => p.wire(),
            Self::StickerSet(p) => p.wire(),
            Self::StickerSetInfo(p) => p.wire(),
            Self::StickerSets(p) => p.wire(),
            Self::CallDiscardReason(p) => p.wire(),
            Self::CallProtocol(p) => p.wire(),
            Self::CallConnection(p) => p.wire(),
            Self::CallId(p) => p.wire(),
            Self::CallState(p) => p.wire(),
            Self::CallProblem(p) => p.wire(),
            Self::Call(p) => p.wire(),
            Self::PhoneNumberAuthenticationSettings(p) => p.wire(),
            Self::Animations(p) => p.wire(),
            Self::ImportedContacts(p) => p.wire(),
            Self::HttpUrl(p) => p.wire(),
            Self::InputInlineQueryResult(p) => p.wire(),
            Self::InlineQueryResult(p) => p.wire(),
            Self::InlineQueryResults(p) => p.wire(),
            Self::CallbackQueryPayload(p) => p.wire(),
            Self::CallbackQueryAnswer(p) => p.wire(),
            Self::CustomRequestResult(p) => p.wire(),
            Self::GameHighScore(p) => p.wire(),
            Self::GameHighScores(p) => p.wire(),
            Self::ChatEventAction(p) => p.wire(),
            Self::ChatEvent(p) => p.wire(),
            Self::ChatEvents(p) => p.wire(),
            Self::ChatEventLogFilters(p) => p.wire(),
            Self::LanguagePackStringValue(p) => p.wire(),
            Self::LanguagePackString(p) => p.wire(),
            Self::LanguagePackStrings(p) => p.wire(),
            Self::LanguagePackInfo(p) => p.wire(),
            Self::LocalizationTargetInfo(p) => p.wire(),
            Self::DeviceToken(p) => p.wire(),
            Self::PushReceiverId(p) => p.wire(),
            Self::BackgroundFill(p) => p.wire(),
            Self::BackgroundType(p) => p.wire(),
            Self::Background(p) => p.wire(),
            Self::Backgrounds(p) => p.wire(),
            Self::InputBackground(p) => p.wire(),
            Self::Hashtags(p) => p.wire(),
            Self::CanTransferOwnershipResult(p) => p.wire(),
            Self::CheckChatUsernameResult(p) => p.wire(),
            Self::PushMessageContent(p) => p.wire(),
            Self::NotificationType(p) => p.wire(),
            Self::NotificationGroupType(p) => p.wire(),
            Self::Notification(p) => p.wire(),
            Self::NotificationGroup(p) => p.wire(),
            Self::OptionValue(p) => p.wire(),
            Self::JsonObjectMember(p) => p.wire(),
            Self::JsonValue(p) => p.wire(),
            Self::UserPrivacySettingRule(p) => p.wire(),
            Self::UserPrivacySettingRules(p) => p.wire(),
            Self::UserPrivacySetting(p) => p.wire(),
            Self::AccountTtl(p) => p.wire(),
            Self::Session(p) => p.wire(),
            Self::Sessions(p) => p.wire(),
            Self::ConnectedWebsite(p) => p.wire(),
            Self::ConnectedWebsites(p) => p.wire(),
            Self::ChatReportReason(p) => p.wire(),
            Self::PublicMessageLink(p) => p.wire(),
            Self::MessageLinkInfo(p) => p.wire(),
            Self::FilePart(p) => p.wire(),
            Self::FileType(p) => p.wire(),
            Self::StorageStatisticsByFileType(p) => p.wire(),
            Self::StorageStatisticsByChat(p) => p.wire(),
            Self::StorageStatistics(p) => p.wire(),
            Self::StorageStatisticsFast(p) => p.wire(),
            Self::DatabaseStatistics(p) => p.wire(),
            Self::NetworkType(p) => p.wire(),
            Self::NetworkStatisticsEntry(p) => p.wire(),
            Self::NetworkStatistics(p) => p.wire(),
            Self::AutoDownloadSettings(p) => p.wire(),
            Self::AutoDownloadSettingsPresets(p) => p.wire(),
            Self::ConnectionState(p) => p.wire(),
            Self::TopChatCategory(p) => p.wire(),
            Self::TMeUrlType(p) => p.wire(),
            Self::TMeUrl(p) => p.wire(),
            Self::TMeUrls(p) => p.wire(),
            Self::Count(p) => p.wire(),
            Self::Text(p) => p.wire(),
            Self::Seconds(p) => p.wire(),
            Self::DeepLinkInfo(p) => p.wire(),
            Self::TextParseMode(p) => p.wire(),
            Self::ProxyType(p) => p.wire(),
            Self::Proxy(p) => p.wire(),
            Self::Proxies(p) => p.wire(),
            Self::InputSticker(p) => p.wire(),
            Self::UpdateAuthorizationState(p) => p.wire(),
            Self::UpdateNewMessage(p) => p.wire(),
            Self::UpdateMessageSendAcknowledged(p) => p.wire(),
            Self::UpdateMessageSendSucceeded(p) => p.wire(),
            Self::UpdateMessageSendFailed(p) => p.wire(),
            Self::UpdateMessageContent(p) => p.wire(),
            Self::UpdateMessageEdited(p) => p.wire(),
            Self::UpdateMessageViews(p) => p.wire(),
            Self::UpdateMessageContentOpened(p) => p.wire(),
            Self::UpdateMessageMentionRead(p) => p.wire(),
            Self::UpdateMessageLiveLocationViewed(p) => p.wire(),
            Self::UpdateNewChat(p) => p.wire(),
            Self::UpdateChatChatList(p) => p.wire(),
            Self::UpdateChatTitle(p) => p.wire(),
            Self::UpdateChatPhoto(p) => p.wire(),
            Self::UpdateChatPermissions(p) => p.wire(),
            Self::UpdateChatLastMessage(p) => p.wire(),
            Self::UpdateChatOrder(p) => p.wire(),
            Self::UpdateChatIsPinned(p) => p.wire(),
            Self::UpdateChatIsMarkedAsUnread(p) => p.wire(),
            Self::UpdateChatIsSponsored(p) => p.wire(),
            Self::UpdateChatHasScheduledMessages(p) => p.wire(),
            Self::UpdateChatDefaultDisableNotification(p) => p.wire(),
            Self::UpdateChatReadInbox(p) => p.wire(),
            Self::UpdateChatReadOutbox(p) => p.wire(),
            Self::UpdateChatUnreadMentionCount(p) => p.wire(),
            Self::UpdateChatNotificationSettings(p) => p.wire(),
            Self::UpdateScopeNotificationSettings(p) => p.wire(),
            Self::UpdateChatActionBar(p) => p.wire(),
            Self::UpdateChatPinnedMessage(p) => p.wire(),
            Self::UpdateChatReplyMarkup(p) => p.wire(),
            Self::UpdateChatDraftMessage(p) => p.wire(),
            Self::UpdateChatOnlineMemberCount(p) => p.wire(),
            Self::UpdateNotification(p) => p.wire(),
            Self::UpdateNotificationGroup(p) => p.wire(),
            Self::UpdateActiveNotifications(p) => p.wire(),
            Self::UpdateHavePendingNotifications(p) => p.wire(),
            Self::UpdateDeleteMessages(p) => p.wire(),
            Self::UpdateUserChatAction(p) => p.wire(),
            Self::UpdateUserStatus(p) => p.wire(),
            Self::UpdateUser(p) => p.wire(),
            Self::UpdateBasicGroup(p) => p.wire(),
            Self::UpdateSupergroup(p) => p.wire(),
            Self::UpdateSecretChat(p) => p.wire(),
            Self::UpdateUserFullInfo(p) => p.wire(),
            Self::UpdateBasicGroupFullInfo(p) => p.wire(),
            Self::UpdateSupergroupFullInfo(p) => p.wire(),
            Self::UpdateServiceNotification(p) => p.wire(),
            Self::UpdateFile(p) => p.wire(),
            Self::UpdateFileGenerationStart(p) => p.wire(),
            Self::UpdateFileGenerationStop(p) => p.wire(),
            Self::UpdateCall(p) => p.wire(),
            Self::UpdateUserPrivacySettingRules(p) => p.wire(),
            Self::UpdateUnreadMessageCount(p) => p.wire(),
            Self::UpdateUnreadChatCount(p) => p.wire(),
            Self::UpdateOption(p) => p.wire(),
            Self::UpdateInstalledStickerSets(p) => p.wire(),
            Self::UpdateTrendingStickerSets(p) => p.wire(),
            Self::UpdateRecentStickers(p) => p.wire(),
            Self::UpdateFavoriteStickers(p) => p.wire(),
            Self::UpdateSavedAnimations(p) => p.wire(),
            Self::UpdateSelectedBackground(p) => p.wire(),
            Self::UpdateLanguagePackStrings(p) => p.wire(),
            Self::UpdateConnectionState(p) => p.wire(),
            Self::UpdateTermsOfService(p) => p.wire(),
            Self::UpdateUsersNearby(p) => p.wire(),
            Self::UpdateNewInlineQuery(p) => p.wire(),
            Self::UpdateNewChosenInlineResult(p) => p.wire(),
            Self::UpdateNewCallbackQuery(p) => p.wire(),
            Self::UpdateNewInlineCallbackQuery(p) => p.wire(),
            Self::UpdateNewShippingQuery(p) => p.wire(),
            Self::UpdateNewPreCheckoutQuery(p) => p.wire(),
            Self::UpdateNewCustomEvent(p) => p.wire(),
            Self::UpdateNewCustomQuery(p) => p.wire(),
            Self::UpdatePoll(p) => p.wire(),
            Self::UpdatePollAnswer(p) => p.wire(),
            Self::Updates(p) => p.wire(),
            Self::LogStream(p) => p.wire(),
            Self::LogVerbosityLevel(p) => p.wire(),
            Self::LogTags(p) => p.wire(),
            Self::TestInt(p) => p.wire(),
            Self::TestString(p) => p.wire(),
            Self::TestBytes(p) => p.wire(),
            Self::TestVectorInt(p) => p.wire(),
            Self::TestVectorIntObject(p) => p.wire(),
            Self::TestVectorString(p) => p.wire(),
            Self::TestVectorStringObject(p) => p.wire(),
        }
    }

    /// The discriminator picks the arm, and the type of the arm decodes the document.
    #[verifier::opaque]
    open spec fn parse(d: Doc, at: Seq<char>) -> Result<Doc, Fault> {
        match d {
            Doc::Object(_) => match tag_of(d) {
                Some(t) => if Self::route(t) == 0 {
                    Err(Fault::UnknownVariant(t))
                } else {
                    Self::parse_arm(Self::route(t), d, at)
                },
                None => Err(Fault::MissingDiscriminator),
            },
            _ => Err(Fault::TypeMismatch(at)),
        }
    }

    fn encode(&self) -> (j: Json) {
        proof {
            reveal(<Response as Wire>::wire);
        }
        match self {
            Self::Error(p) => p.encode(),
            Self::Okay(p) => p.encode(),
            Self::TdlibParameters(p) => p.encode(),
            Self::AuthenticationCodeType(p) => p.encode(),
            Self::AuthenticationCodeInfo(p) => p.encode(),
            Self::EmailAddressAuthenticationCodeInfo(p) => p.encode(),
            Self::TextEntity(p) => p.encode(),
            Self::TextEntities(p) => p.encode(),
            Self::FormattedText(p) => p.encode(),
            Self::TermsOfService(p) => p.encode(),
            Self::AuthorizationState(p) => p.encode(),
            Self::PasswordState(p) => p.encode(),
            Self::RecoveryEmailAddress(p) => p.encode(),
            Self::TemporaryPasswordState(p) => p.encode(),
            Self::LocalFile(p) => p.encode(),
            Self::RemoteFile(p) => p.encode(),
            Self::File(p) => p.encode(),
            Self::InputFile(p) => p.encode(),
            Self::PhotoSize(p) => p.encode(),
            Self::Minithumbnail(p) => p.encode(),
            Self::MaskPoint(p) => p.encode(),
            Self::MaskPosition(p) => p.encode(),
            Self::PollOption(p) => p.encode(),
            Self::PollType(p) => p.encode(),
            Self::Animation(p) => p.encode(),
            Self::Audio(p) => p.encode(),
            Self::Document(p) => p.encode(),
            Self::Photo(p) => p.encode(),
            Self::Sticker(p) => p.encode(),
            Self::Video(p) => p.encode(),
            Self::VideoNote(p) => p.encode(),
            Self::VoiceNote(p) => p.encode(),
            Self::Contact(p) => p.encode(),
            Self::Location(p) => p.encode(),
            Self::Venue(p) => p.encode(),
            Self::Game(p) => p.encode(),
            Self::Poll(p) => p.encode(),
            Self::ProfilePhoto(p) => p.encode(),
            Self::ChatPhoto(p) => p.encode(),
            Self::UserType(p) => p.encode(),
            Self::BotCommand(p) => p.encode(),
            Self::BotInfo(p) => p.encode(),
            Self::ChatLocation(p) => p.encode(),
            Self::User(p) => p.encode(),
            Self::UserFullInfo(p) => p.encode(),
            Self::UserProfilePhoto(p) => p.encode(),
            Self::UserProfilePhotos(p) => p.encode(),
            Self::Users(p) => p.encode(),
            Self::ChatAdministrator(p) => p.encode(),
            Self::ChatAdministrators(p) => p.encode(),
            Self::ChatPermissions(p) => p.encode(),
            Self::ChatMemberStatus(p) => p.encode(),
            Self::ChatMember(p) => p.encode(),
            Self::ChatMembers(p) => p.encode(),
            Self::ChatMembersFilter(p) => p.encode(),
            Self::SupergroupMembersFilter(p) => p.encode(),
            Self::BasicGroup(p) => p.encode(),
            Self::BasicGroupFullInfo(p) => p.encode(),
            Self::Supergroup(p) => p.encode(),
            Self::SupergroupFullInfo(p) => p.encode(),
            Self::SecretChatState(p) => p.encode(),
            Self::SecretChat(p) => p.encode(),
            Self::MessageForwardOrigin(p) => p.encode(),
            Self::MessageForwardInfo(p) => p.encode(),
            Self::MessageSendingState(p) => p.encode(),
            Self::Message(p) => p.encode(),
            Self::Messages(p) => p.encode(),
            Self::FoundMessages(p) => p.encode(),
            Self::NotificationSettingsScope(p) => p.encode(),
            Self::ChatNotificationSettings(p) => p.encode(),
            Self::ScopeNotificationSettings(p) => p.encode(),
            Self::DraftMessage(p) => p.encode(),
            Self::ChatType(p) => p.encode(),
            Self::ChatList(p) => p.encode(),
            Self::Chat(p) => p.encode(),
            Self::Chats(p) => p.encode(),
            Self::ChatNearby(p) => p.encode(),
            Self::ChatsNearby(p) => p.encode(),
            Self::ChatInviteLink(p) => p.encode(),
            Self::ChatInviteLinkInfo(p) => p.encode(),
            Self::PublicChatType(p) => p.encode(),
            Self::ChatActionBar(p) => p.encode(),
            Self::KeyboardButtonType(p) => p.encode(),
            Self::KeyboardButton(p) => p.encode(),
            Self::InlineKeyboardButtonType(p) => p.encode(),
            Self::InlineKeyboardButton(p) => p.encode(),
            Self::ReplyMarkup(p) => p.encode(),
            Self::LoginUrlInfo(p) => p.encode(),
            Self::RichText(p) => p.encode(),
            Self::PageBlockCaption(p) => p.encode(),
            Self::PageBlockListItem(p) => p.encode(),
            Self::PageBlockHorizontalAlignment(p) => p.encode(),
            Self::PageBlockVerticalAlignment(p) => p.encode(),
            Self::PageBlockTableCell(p) => p.encode(),
            Self::PageBlockRelatedArticle(p) => p.encode(),
            Self::PageBlock(p) => p.encode(),
            Self::WebPageInstantView(p) => p.encode(),
            Self::WebPage(p) => p.encode(),
            Self::Address(p) => p.encode(),
            Self::LabeledPricePart(p) => p.encode(),
            Self::Invoice(p) => p.encode(),
            Self::OrderInfo(p) => p.encode(),
            Self::ShippingOption(p) => p.encode(),
            Self::SavedCredentials(p) => p.encode(),
            Self::InputCredentials(p) => p.encode(),
            Self::PaymentsProviderStripe(p) => p.encode(),
            Self::PaymentForm(p) => p.encode(),
            Self::ValidatedOrderInfo(p) => p.encode(),
            Self::PaymentResult(p) => p.encode(),
            Self::PaymentReceipt(p) => p.encode(),
            Self::DatedFile(p) => p.encode(),
            Self::PassportElementType(p) => p.encode(),
            Self::Date(p) => p.encode(),
            Self::PersonalDetails(p) => p.encode(),
            Self::IdentityDocument(p) => p.encode(),
            Self::InputIdentityDocument(p) => p.encode(),
            Self::PersonalDocument(p) => p.encode(),
            Self::InputPersonalDocument(p) => p.encode(),
            Self::PassportElement(p) => p.encode(),
            Self::InputPassportElement(p) => p.encode(),
            Self::PassportElements(p) => p.encode(),
            Self::PassportElementErrorSource(p) => p.encode(),
            Self::PassportElementError(p) => p.encode(),
            Self::PassportSuitableElement(p) => p.encode(),
            Self::PassportRequiredElement(p) => p.encode(),
            Self::PassportAuthorizationForm(p) => p.encode(),
            Self::PassportElementsWithErrors(p) => p.encode(),
            Self::EncryptedCredentials(p) => p.encode(),
            Self::EncryptedPassportElement(p) => p.encode(),
            Self::InputPassportElementErrorSource(p) => p.encode(),
            Self::InputPassportElementError(p) => p.encode(),
            Self::MessageContent(p) => p.encode(),
            Self::TextEntityType(p) => p.encode(),
            Self::InputThumbnail(p) => p.encode(),
            Self::MessageSchedulingState(p) => p.encode(),
            Self::SendMessageOptions(p) => p.encode(),
            Self::InputMessageContent(p) => p.encode(),
            Self::SearchMessagesFilter(p) => p.encode(),
            Self::ChatAction(p) => p.encode(),
            Self::UserStatus(p) => p.encode(),
            Self::Stickers(p) => p.encode(),
            Self::Emojis(p) => p.encode(),
            Self::StickerSet(p) => p.encode(),
            Self::StickerSetInfo(p) => p.encode(),
            Self::StickerSets(p) => p.encode(),
            Self::CallDiscardReason(p) => p.encode(),
            Self::CallProtocol(p) => p.encode(),
            Self::CallConnection(p) => p.encode(),
            Self::CallId(p) => p.encode(),
            Self::CallState(p) => p.encode(),
            Self::CallProblem(p) => p.encode(),
            Self::Call(p) => p.encode(),
            Self::PhoneNumberAuthenticationSettings(p) => p.encode(),
            Self::Animations(p) => p.encode(),
            Self::ImportedContacts(p) => p.encode(),
            Self::HttpUrl(p) => p.encode(),
            Self::InputInlineQueryResult(p) => p.encode(),
            Self::InlineQueryResult(p) => p.encode(),
            Self::InlineQueryResults(p) => p.encode(),
            Self::CallbackQueryPayload(p) => p.encode(),
            Self::CallbackQueryAnswer(p) => p.encode(),
            Self::CustomRequestResult(p) => p.encode(),
            Self::GameHighScore(p) => p.encode(),
            Self::GameHighScores(p) => p.encode(),
            Self::ChatEventAction(p) => p.encode(),
            Self::ChatEvent(p) => p.encode(),
            Self::ChatEvents(p) => p.encode(),
            Self::ChatEventLogFilters(p) => p.encode(),
            Self::LanguagePackStringValue(p) => p.encode(),
            Self::LanguagePackString(p) => p.encode(),
            Self::LanguagePackStrings(p) => p.encode(),
            Self::LanguagePackInfo(p) => p.encode(),
            Self::LocalizationTargetInfo(p) => p.encode(),
            Self::DeviceToken(p) => p.encode(),
            Self::PushReceiverId(p) => p.encode(),
            Self::BackgroundFill(p) => p.encode(),
            Self::BackgroundType(p) => p.encode(),
            Self::Background(p) => p.encode(),
            Self::Backgrounds(p) => p.encode(),
            Self::InputBackground(p) => p.encode(),
            Self::Hashtags(p) => p.encode(),
            Self::CanTransferOwnershipResult(p) => p.encode(),
            Self::CheckChatUsernameResult(p) => p.encode(),
            Self::PushMessageContent(p) => p.encode(),
            Self::NotificationType(p) => p.encode(),
            Self::NotificationGroupType(p) => p.encode(),
            Self::Notification(p) => p.encode(),
            Self::NotificationGroup(p) => p.encode(),
            Self::OptionValue(p) => p.encode(),
            Self::JsonObjectMember(p) => p.encode(),
            Self::JsonValue(p) => p.encode(),
            Self::UserPrivacySettingRule(p) => p.encode(),
            Self::UserPrivacySettingRules(p) => p.encode(),
            Self::UserPrivacySetting(p) => p.encode(),
            Self::AccountTtl(p) => p.encode(),
            Self::Session(p) => p.encode(),
            Self::Sessions(p) => p.encode(),
            Self::ConnectedWebsite(p) => p.encode(),
            Self::ConnectedWebsites(p) => p.encode(),
            Self::ChatReportReason(p) => p.encode(),
            Self::PublicMessageLink(p) => p.encode(),
            Self::MessageLinkInfo(p) => p.encode(),
            Self::FilePart(p) => p.encode(),
            Self::FileType(p) => p.encode(),
            Self::StorageStatisticsByFileType(p) => p.encode(),
            Self::StorageStatisticsByChat(p) => p.encode(),
            Self::StorageStatistics(p) => p.encode(),
            Self::StorageStatisticsFast(p) => p.encode(),
            Self::DatabaseStatistics(p) => p.encode(),
            Self::NetworkType(p) => p.encode(),
            Self::NetworkStatisticsEntry(p) => p.encode(),
            Self::NetworkStatistics(p) => p.encode(),
            Self::AutoDownloadSettings(p) => p.encode(),
            Self::AutoDownloadSettingsPresets(p) => p.encode(),
            Self::ConnectionState(p) => p.encode(),
            Self::TopChatCategory(p) => p.encode(),
            Self::TMeUrlType(p) => p.encode(),
            Self::TMeUrl(p) => p.encode(),
            Self::TMeUrls(p) => p.encode(),
            Self::Count(p) => p.encode(),
            Self::Text(p) => p.encode(),
            Self::Seconds(p) => p.encode(),
            Self::DeepLinkInfo(p) => p.encode(),
            Self::TextParseMode(p) => p.encode(),
            Self::ProxyType(p) => p.encode(),
            Self::Proxy(p) => p.encode(),
            Self::Proxies(p) => p.encode(),
            Self::InputSticker(p) => p.encode(),
            Self::UpdateAuthorizationState(p) => p.encode(),
            Self::UpdateNewMessage(p) => p.encode(),
            Self::UpdateMessageSendAcknowledged(p) => p.encode(),
            Self::UpdateMessageSendSucceeded(p) => p.encode(),
            Self::UpdateMessageSendFailed(p) => p.encode(),
            Self::UpdateMessageContent(p) => p.encode(),
            Self::UpdateMessageEdited(p) => p.encode(),
            Self::UpdateMessageViews(p) => p.encode(),
            Self::UpdateMessageContentOpened(p) => p.encode(),
            Self::UpdateMessageMentionRead(p) => p.encode(),
            Self::UpdateMessageLiveLocationViewed(p) => p.encode(),
            Self::UpdateNewChat(p) => p.encode(),
            Self::UpdateChatChatList(p) => p.encode(),
            Self::UpdateChatTitle(p) => p.encode(),
            Self::UpdateChatPhoto(p) => p.encode(),
            Self::UpdateChatPermissions(p) => p.encode(),
            Self::UpdateChatLastMessage(p) => p.encode(),
            Self::UpdateChatOrder(p) => p.encode(),
            Self::UpdateChatIsPinned(p) => p.encode(),
            Self::UpdateChatIsMarkedAsUnread(p) => p.encode(),
            Self::UpdateChatIsSponsored(p) => p.encode(),
            Self::UpdateChatHasScheduledMessages(p) => p.encode(),
            Self::UpdateChatDefaultDisableNotification(p) => p.encode(),
            Self::UpdateChatReadInbox(p) => p.encode(),
            Self::UpdateChatReadOutbox(p) => p.encode(),
            Self::UpdateChatUnreadMentionCount(p) => p.encode(),
            Self::UpdateChatNotificationSettings(p) => p.encode(),
            Self::UpdateScopeNotificationSettings(p) => p.encode(),
            Self::UpdateChatActionBar(p) => p.encode(),
            Self::UpdateChatPinnedMessage(p) => p.encode(),
            Self::UpdateChatReplyMarkup(p) => p.encode(),
            Self::UpdateChatDraftMessage(p) => p.encode(),
            Self::UpdateChatOnlineMemberCount(p) => p.encode(),
            Self::UpdateNotification(p) => p.encode(),
            Self::UpdateNotificationGroup(p) => p.encode(),
            Self::UpdateActiveNotifications(p) => p.encode(),
            Self::UpdateHavePendingNotifications(p) => p.encode(),
            Self::UpdateDeleteMessages(p) => p.encode(),
            Self::UpdateUserChatAction(p) => p.encode(),
            Self::UpdateUserStatus(p) => p.encode(),
            Self::UpdateUser(p) => p.encode(),
            Self::UpdateBasicGroup(p) => p.encode(),
            Self::UpdateSupergroup(p) => p.encode(),
            Self::UpdateSecretChat(p) => p.encode(),
            Self::UpdateUserFullInfo(p) => p.encode(),
            Self::UpdateBasicGroupFullInfo(p) => p.encode(),
            Self::UpdateSupergroupFullInfo(p) => p.encode(),
            Self::UpdateServiceNotification(p) => p.encode(),
            Self::UpdateFile(p) => p.encode(),
            Self::UpdateFileGenerationStart(p) => p.encode(),
            Self::UpdateFileGenerationStop(p) => p.encode(),
            Self::UpdateCall(p) => p.encode(),
            Self::UpdateUserPrivacySettingRules(p) => p.encode(),
            Self::UpdateUnreadMessageCount(p) => p.encode(),
            Self::UpdateUnreadChatCount(p) => p.encode(),
            Self::UpdateOption(p) => p.encode(),
            Self::UpdateInstalledStickerSets(p) => p.encode(),
            Self::UpdateTrendingStickerSets(p) => p.encode(),
            Self::UpdateRecentStickers(p) => p.encode(),
            Self::UpdateFavoriteStickers(p) => p.encode(),
            Self::UpdateSavedAnimations(p) => p.encode(),
            Self::UpdateSelectedBackground(p) => p.encode(),
            Self::UpdateLanguagePackStrings(p) => p.encode(),
            Self::UpdateConnectionState(p) => p.encode(),
            Self::UpdateTermsOfService(p) => p.encode(),
            Self::UpdateUsersNearby(p) => p.encode(),
            Self::UpdateNewInlineQuery(p) => p.encode(),
            Self::UpdateNewChosenInlineResult(p) => p.encode(),
            Self::UpdateNewCallbackQuery(p) => p.encode(),
            Self::UpdateNewInlineCallbackQuery(p) => p.encode(),
            Self::UpdateNewShippingQuery(p) => p.encode(),
            Self::UpdateNewPreCheckoutQuery(p) => p.encode(),
            Self::UpdateNewCustomEvent(p) => p.encode(),
            Self::UpdateNewCustomQuery(p) => p.encode(),
            Self::UpdatePoll(p) => p.encode(),
            Self::UpdatePollAnswer(p) => p.encode(),
            Self::Updates(p) => p.encode(),
            Self::LogStream(p) => p.encode(),
            Self::LogVerbosityLevel(p) => p.encode(),
            Self::LogTags(p) => p.encode(),
            Self::TestInt(p) => p.encode(),
            Self::TestString(p) => p.encode(),
            Self::TestBytes(p) => p.encode(),
            Self::TestVectorInt(p) => p.encode(),
            Self::TestVectorIntObject(p) => p.encode(),
            Self::TestVectorString(p) => p.encode(),
            Self::TestVectorStringObject(p) => p.encode(),
        }
    }

    fn decode(j: &Json, at: &str) -> (r: Result<Self, DecodeError>) {
        proof {
            reveal(<Response as Wire>::parse);
        }
        let members = members_of(j, at)?;
        let tag = discriminator(members)?;
        let arm = Self::route_of(tag);
        if arm == 0 {
            Err(DecodeError::UnknownVariant(tag.to_owned()))
        } else {
            Self::decode_arm(arm, j, at)
        }
    }

    proof fn round_trip(&self, at: Seq<char>) {
        Self::round_trip_1(*self, at);
        Self::round_trip_2(*self, at);
        Self::round_trip_3(*self, at);
        Self::round_trip_4(*self, at);
        Self::round_trip_5(*self, at);
        Self::round_trip_6(*self, at);
        Self::round_trip_7(*self, at);
        Self::round_trip_8(*self, at);
    }
}

impl Tagged for Response {
    open spec fn known(tag: Seq<char>) -> bool {
        Self::route(tag) != 0
    }

    fn knows(tag: &str) -> (r: bool) {
        Self::route_of(tag) != 0
    }

    proof fn tag_known(&self) {
        Self::tag_known_1(*self);
        Self::tag_known_2(*self);
        Self::tag_known_3(*self);
        Self::tag_known_4(*self);
        Self::tag_known_5(*self);
        Self::tag_known_6(*self);
        Self::tag_known_7(*self);
        Self::tag_known_8(*self);
    }
}

impl Union for Response {
    proof fn unknown_rejected(d: Doc, at: Seq<char>) {
        reveal(<Response as Wire>::parse);
    }

    proof fn untagged_rejected(d: Doc, at: Seq<char>) {
        reveal(<Response as Wire>::parse);
    }
}

impl Response {
    /// The number of arms.
    pub const ARMS: u16 = 315;

    /// The arm that a discriminator belongs to, counted from 1 in the order in which the
    /// arms are declared; 0 for a discriminator that belongs to none. A discriminator of a
    /// union belongs to the arm of that union.
    pub open spec fn route(t: Seq<char>) -> int {
        if t.len() == 2 {
            Self::route_2(t)
        } else if t.len() == 4 {
            Self::route_4(t)
        } else if t.len() == 5 {
            Self::route_5(t)
        } else if t.len() == 6 {
            Self::route_6(t)
        } else if t.len() == 7 {
            Self::route_7(t)
        } else if t.len() == 8 {
            Self::route_8(t)
        } else if t.len() == 9 {
            Self::route_9(t)
        } else if t.len() == 10 {
            Self::route_10(t)
        } else if t.len() == 11 {
            Self::route_11(t)
        } else if t.len() == 12 {
            Self::route_12(t)
        } else if t.len() == 13 {
            Self::route_13(t)
        } else if t.len() == 14 {
            Self::route_14(t)
        } else if t.len() == 15 {
            Self::route_15(t)
        } else if t.len() == 16 {
            Self::route_16(t)
        } else if t.len() == 17 {
            Self::route_17(t)
        } else if t.len() == 18 {
            Self::route_18(t)
        } else if t.len() == 19 {
            Self::route_19(t)
        } else if t.len() == 20 {
            Self::route_20(t)
        } else if t.len() == 21 {
            Self::route_21(t)
        } else if t.len() == 22 {
            Self::route_22(t)
        } else if t.len() == 23 {
            Self::route_23(t)
        } else if t.len() == 24 {
            Self::route_24(t)
        } else if t.len() == 25 {
            Self::route_25(t)
        } else if t.len() == 26 {
            Self::route_26(t)
        } else if t.len() == 27 {
            Self::route_27(t)
        } else if t.len() == 28 {
            Self::route_28(t)
        } else if t.len() == 29 {
            Self::route_29(t)
        } else if t.len() == 30 {
            Self::route_30(t)
        } else if t.len() == 31 {
            Self::route_31(t)
        } else if t.len() == 32 {
            Self::route_32(t)
        } else if t.len() == 33 {
            Self::route_33(t)
        } else if t.len() == 34 {
            Self::route_34(t)
        } else if t.len() == 35 {
            Self::route_35(t)
        } else if t.len() == 36 {
            Self::route_36(t)
        } else if t.len() == 37 {
            Self::route_37(t)
        } else if t.len() == 38 {
            Self::route_38(t)
        } else if t.len() == 39 {
            Self::route_39(t)
        } else if t.len() == 40 {
            Self::route_40(t)
        } else if t.len() == 41 {
            Self::route_41(t)
        } else if t.len() == 42 {
            Self::route_42(t)
        } else if t.len() == 43 {
            Self::route_43(t)
        } else if t.len() == 45 {
            Self::route_45(t)
        } else if t.len() == 46 {
            Self::route_46(t)
        } else if t.len() == 47 {
            Self::route_47(t)
        } else {
            0
        }
    }

    pub open spec fn route_2(t: Seq<char>) -> int {
        if t == "ok"@ {
            2
        } else {
            0
        }
    }

    pub open spec fn route_4(t: Seq<char>) -> int {
        if t == "call"@ {
            152
        } else if t == "chat"@ {
            75
        } else if t == "date"@ {
            113
        } else if t == "file"@ {
            17
        } else if t == "game"@ {
            36
        } else if t == "poll"@ {
            37
        } else if t == "text"@ {
            221
        } else if t == "user"@ {
            44
        } else {
            0
        }
    }

    pub open spec fn route_5(t: Seq<char>) -> int {
        if t == "audio"@ {
            26
        } else if t == "chats"@ {
            76
        } else if t == "count"@ {
            220
        } else if t == "error"@ {
            1
        } else if t == "photo"@ {
            28
        } else if t == "proxy"@ {
            226
        } else if t == "users"@ {
            48
        } else if t == "venue"@ {
            35
        } else if t == "video"@ {
            30
        } else {
            0
        }
    }

    pub open spec fn route_6(t: Seq<char>) -> int {
        if t == "callId"@ {
            149
        } else if t == "emojis"@ {
            142
        } else if t == "tMeUrl"@ {
            218
        } else {
            0
        }
    }

    pub open spec fn route_7(t: Seq<char>) -> int {
        if t == "address"@ {
            99
        } else if t == "botInfo"@ {
            42
        } else if t == "contact"@ {
            33
        } else if t == "httpUrl"@ {
            156
        } else if t == "invoice"@ {
            101
        } else if t == "logTags"@ {
            308
        } else if t == "message"@ {
            66
        } else if t == "proxies"@ {
            227
        } else if t == "seconds"@ {
            222
        } else if t == "session"@ {
            196
        } else if t == "sticker"@ {
            29
        } else if t == "tMeUrls"@ {
            219
        } else if t == "testInt"@ {
            309
        } else if t == "updates"@ {
            305
        } else if t == "webPage"@ {
            98
        } else {
            0
        }
    }

    pub open spec fn route_8(t: Seq<char>) -> int {
        if t == "document"@ {
            27
        } else if t == "filePart"@ {
            203
        } else if t == "hashtags"@ {
            181
        } else if t == "location"@ {
            34
        } else if t == "messages"@ {
            67
        } else if t == "sessions"@ {
            197
        } else if t == "stickers"@ {
            141
        } else {
            0
        }
    }

    pub open spec fn route_9(t: Seq<char>) -> int {
        if t == "animation"@ {
            25
        } else if t == "chatEvent"@ {
            166
        } else if t == "chatPhoto"@ {
            39
        } else if t == "datedFile"@ {
            111
        } else if t == "localFile"@ {
            15
        } else if t == "orderInfo"@ {
            102
        } else if t == "photoSize"@ {
            19
        } else if t == "richTexts"@ {
            89
        } else if t == "testBytes"@ {
            311
        } else if t == "videoNote"@ {
            31
        } else if t == "voiceNote"@ {
            32
        } else {
            0
        }
    }

    pub open spec fn route_10(t: Seq<char>) -> int {
        if t == "accountTtl"@ {
            195
        } else if t == "animations"@ {
            154
        } else if t == "background"@ {
            178
        } else if t == "basicGroup"@ {
            57
        } else if t == "botCommand"@ {
            41
        } else if t == "chatEvents"@ {
            167
        } else if t == "chatMember"@ {
            53
        } else if t == "chatNearby"@ {
            77
        } else if t == "pollOption"@ {
            23
        } else if t == "remoteFile"@ {
            16
        } else if t == "secretChat"@ {
            62
        } else if t == "stickerSet"@ {
            143
        } else if t == "supergroup"@ {
            59
        } else if t == "testString"@ {
            310
        } else if t == "textEntity"@ {
            7
        } else if t == "updateCall"@ {
            280
        } else if t == "updateFile"@ {
            277
        } else if t == "updatePoll"@ {
            303
        } else if t == "updateUser"@ {
            269
        } else {
            0
        }
    }

    pub open spec fn route_11(t: Seq<char>) -> int {
        if t == "backgrounds"@ {
            179
        } else if t == "chatMembers"@ {
            54
        } else if t == "chatsNearby"@ {
            78
        } else if t == "inputFileId"@ {
            18
        } else if t == "messageCall"@ {
            132
        } else if t == "messageGame"@ {
            132
        } else if t == "messagePoll"@ {
            132
        } else if t == "messageText"@ {
            132
        } else if t == "paymentForm"@ {
            107
        } else if t == "richTextUrl"@ {
            89
        } else if t == "stickerSets"@ {
            145
        } else if t == "userTypeBot"@ {
            40
        } else {
            0
        }
    }

    pub open spec fn route_12(t: Seq<char>) -> int {
        if t == "callProtocol"@ {
            147
        } else if t == "chatListMain"@ {
            74
        } else if t == "chatLocation"@ {
            43
        } else if t == "deepLinkInfo"@ {
            223
        } else if t == "draftMessage"@ {
            72
        } else if t == "fileTypeNone"@ {
            204
        } else if t == "inputSticker"@ {
            228
        } else if t == "maskPosition"@ {
            22
        } else if t == "messageAudio"@ {
            132
        } else if t == "messagePhoto"@ {
            132
        } else if t == "messageVenue"@ {
            132
        } else if t == "messageVideo"@ {
            132
        } else if t == "notification"@ {
            187
        } else if t == "pageBlockMap"@ {
            96
        } else if t == "pollTypeQuiz"@ {
            24
        } else if t == "profilePhoto"@ {
            38
        } else if t == "richTextBold"@ {
            89
        } else if t == "richTextIcon"@ {
            89
        } else if t == "textEntities"@ {
            8
        } else if t == "updateOption"@ {
            284
        } else if t == "userFullInfo"@ {
            45
        } else {
            0
        }
    }

    pub open spec fn route_13(t: Seq<char>) -> int {
        if t == "fileTypeAudio"@ {
            204
        } else if t == "fileTypePhoto"@ {
            204
        } else if t == "fileTypeVideo"@ {
            204
        } else if t == "formattedText"@ {
            9
        } else if t == "foundMessages"@ {
            68
        } else if t == "gameHighScore"@ {
            163
        } else if t == "jsonValueNull"@ {
            191
        } else if t == "logStreamFile"@ {
            306
        } else if t == "maskPointChin"@ {
            21
        } else if t == "maskPointEyes"@ {
            21
        } else if t == "minithumbnail"@ {
            20
        } else if t == "pageBlockList"@ {
            96
        } else if t == "passwordState"@ {
            12
        } else if t == "paymentResult"@ {
            109
        } else if t == "proxyTypeHttp"@ {
            225
        } else if t == "richTextFixed"@ {
            89
        } else if t == "richTextPlain"@ {
            89
        } else if t == "testVectorInt"@ {
            312
        } else if t == "updateNewChat"@ {
            240
        } else {
            0
        }
    }

    pub open spec fn route_14(t: Seq<char>) -> int {
        if t == "callConnection"@ {
            148
        } else if t == "callStateError"@ {
            150
        } else if t == "callStateReady"@ {
            150
        } else if t == "chatInviteLink"@ {
            79
        } else if t == "chatTypeSecret"@ {
            73
        } else if t == "fileTypeSecret"@ {
            204
        } else if t == "fileTypeSecure"@ {
            204
        } else if t == "gameHighScores"@ {
            164
        } else if t == "inputFileLocal"@ {
            18
        } else if t == "inputThumbnail"@ {
            134
        } else if t == "jsonValueArray"@ {
            191
        } else if t == "keyboardButton"@ {
            84
        } else if t == "logStreamEmpty"@ {
            306
        } else if t == "maskPointMouth"@ {
            21
        } else if t == "messageContact"@ {
            132
        } else if t == "messageInvoice"@ {
            132
        } else if t == "messageSticker"@ {
            132
        } else if t == "pageBlockAudio"@ {
            96
        } else if t == "pageBlockCover"@ {
            96
        } else if t == "pageBlockPhoto"@ {
            96
        } else if t == "pageBlockTable"@ {
            96
        } else if t == "pageBlockTitle"@ {
            96
        } else if t == "pageBlockVideo"@ {
            96
        } else if t == "paymentReceipt"@ {
            110
        } else if t == "pushReceiverId"@ {
            175
        } else if t == "richTextAnchor"@ {
            89
        } else if t == "richTextItalic"@ {
            89
        } else if t == "richTextMarked"@ {
            89
        } else if t == "shippingOption"@ {
            103
        } else if t == "stickerSetInfo"@ {
            144
        } else if t == "tMeUrlTypeUser"@ {
            217
        } else if t == "termsOfService"@ {
            10
        } else {
            0
        }
    }

    pub open spec fn route_15(t: Seq<char>) -> int {
        if t == "callProblemEcho"@ {
            151
        } else if t == "chatListArchive"@ {
            74
        } else if t == "chatPermissions"@ {
            51
        } else if t == "chatTypePrivate"@ {
            73
        } else if t == "fileTypeSticker"@ {
            204
        } else if t == "fileTypeUnknown"@ {
            204
        } else if t == "inputFileRemote"@ {
            18
        } else if t == "jsonValueNumber"@ {
            191
        } else if t == "jsonValueObject"@ {
            191
        } else if t == "jsonValueString"@ {
            191
        } else if t == "messageDocument"@ {
            132
        } else if t == "messageLinkInfo"@ {
            202
        } else if t == "messageLocation"@ {
            132
        } else if t == "networkTypeNone"@ {
            210
        } else if t == "networkTypeWiFi"@ {
            210
        } else if t == "pageBlockAnchor"@ {
            96
        } else if t == "pageBlockFooter"@ {
            96
        } else if t == "pageBlockHeader"@ {
            96
        } else if t == "pageBlockKicker"@ {
            96
        } else if t == "personalDetails"@ {
            114
        } else if t == "pollTypeRegular"@ {
            24
        } else if t == "proxyTypeSocks5"@ {
            225
        } else if t == "tdlibParameters"@ {
            3
        } else if t == "updateChatOrder"@ {
            246
        } else if t == "updateChatPhoto"@ {
            243
        } else if t == "updateChatTitle"@ {
            242
        } else if t == "userStatusEmpty"@ {
            140
        } else if t == "userTypeDeleted"@ {
            40
        } else if t == "userTypeRegular"@ {
            40
        } else if t == "userTypeUnknown"@ {
            40
        } else {
            0
        }
    }

    pub open spec fn route_16(t: Seq<char>) -> int {
        if t == "callProblemNoise"@ {
            151
        } else if t == "callStatePending"@ {
            150
        } else if t == "chatActionCancel"@ {
            139
        } else if t == "chatActionTyping"@ {
            139
        } else if t == "connectedWebsite"@ {
            198
        } else if t == "fileTypeDocument"@ {
            204
        } else if t == "identityDocument"@ {
            115
        } else if t == "importedContacts"@ {
            155
        } else if t == "inputMessageGame"@ {
            137
        } else if t == "inputMessagePoll"@ {
            137
        } else if t == "inputMessageText"@ {
            137
        } else if t == "jsonObjectMember"@ {
            190
        } else if t == "jsonValueBoolean"@ {
            191
        } else if t == "labeledPricePart"@ {
            100
        } else if t == "languagePackInfo"@ {
            172
        } else if t == "logStreamDefault"@ {
            306
        } else if t == "loginUrlInfoOpen"@ {
            88
        } else if t == "messageAnimation"@ {
            132
        } else if t == "messageGameScore"@ {
            132
        } else if t == "messageVideoNote"@ {
            132
        } else if t == "messageVoiceNote"@ {
            132
        } else if t == "networkTypeOther"@ {
            210
        } else if t == "optionValueEmpty"@ {
            189
        } else if t == "pageBlockCaption"@ {
            90
        } else if t == "pageBlockCollage"@ {
            96
        } else if t == "pageBlockDetails"@ {
            96
        } else if t == "pageBlockDivider"@ {
            96
        } else if t == "passportElements"@ {
            121
        } else if t == "personalDocument"@ {
            117
        } else if t == "proxyTypeMtproto"@ {
            225
        } else if t == "savedCredentials"@ {
            104
        } else if t == "testVectorString"@ {
            314
        } else if t == "updateBasicGroup"@ {
            270
        } else if t == "updateNewMessage"@ {
            230
        } else if t == "updatePollAnswer"@ {
            304
        } else if t == "updateSecretChat"@ {
            272
        } else if t == "updateSupergroup"@ {
            271
        } else if t == "updateUserStatus"@ {
            268
        } else if t == "userProfilePhoto"@ {
            46
        } else if t == "userStatusOnline"@ {
            140
        } else {
            0
        }
    }

    pub open spec fn route_17(t: Seq<char>) -> int {
        if t == "chatAdministrator"@ {
            49
        } else if t == "connectedWebsites"@ {
            199
        } else if t == "fileTypeAnimation"@ {
            204
        } else if t == "fileTypeThumbnail"@ {
            204
        } else if t == "fileTypeVideoNote"@ {
            204
        } else if t == "fileTypeVoiceNote"@ {
            204
        } else if t == "fileTypeWallpaper"@ {
            204
        } else if t == "inputMessageAudio"@ {
            137
        } else if t == "inputMessagePhoto"@ {
            137
        } else if t == "inputMessageVenue"@ {
            137
        } else if t == "inputMessageVideo"@ {
            137
        } else if t == "logVerbosityLevel"@ {
            307
        } else if t == "maskPointForehead"@ {
            21
        } else if t == "messageChatSetTtl"@ {
            132
        } else if t == "messagePinMessage"@ {
            132
        } else if t == "networkStatistics"@ {
            212
        } else if t == "networkTypeMobile"@ {
            210
        } else if t == "notificationGroup"@ {
            188
        } else if t == "optionValueString"@ {
            189
        } else if t == "pageBlockChatLink"@ {
            96
        } else if t == "pageBlockEmbedded"@ {
            96
        } else if t == "pageBlockListItem"@ {
            91
        } else if t == "pageBlockSubtitle"@ {
            96
        } else if t == "publicMessageLink"@ {
            201
        } else if t == "richTextSubscript"@ {
            89
        } else if t == "richTextUnderline"@ {
            89
        } else if t == "storageStatistics"@ {
            207
        } else if t == "textEntityTypePre"@ {
            133
        } else if t == "textEntityTypeUrl"@ {
            133
        } else if t == "textParseModeHTML"@ {
            224
        } else if t == "updateUsersNearby"@ {
            294
        } else if t == "userProfilePhotos"@ {
            47
        } else if t == "userStatusOffline"@ {
            140
        } else {
            0
        }
    }

    pub open spec fn route_18(t: Seq<char>) -> int {
        if t == "backgroundTypeFill"@ {
            177
        } else if t == "basicGroupFullInfo"@ {
            58
        } else if t == "callProblemDropped"@ {
            151
        } else if t == "callStateDiscarded"@ {
            150
        } else if t == "callStateHangingUp"@ {
            150
        } else if t == "chatAdministrators"@ {
            50
        } else if t == "chatInviteLinkInfo"@ {
            80
        } else if t == "chatTypeBasicGroup"@ {
            73
        } else if t == "chatTypeSupergroup"@ {
            73
        } else if t == "databaseStatistics"@ {
            209
        } else if t == "deviceTokenWebPush"@ {
            174
        } else if t == "inlineQueryResults"@ {
            159
        } else if t == "inputFileGenerated"@ {
            18
        } else if t == "languagePackString"@ {
            170
        } else if t == "messageForwardInfo"@ {
            64
        } else if t == "messageUnsupported"@ {
            132
        } else if t == "optionValueBoolean"@ {
            189
        } else if t == "optionValueInteger"@ {
            189
        } else if t == "pageBlockAnimation"@ {
            96
        } else if t == "pageBlockParagraph"@ {
            96
        } else if t == "pageBlockPullQuote"@ {
            96
        } else if t == "pageBlockSlideshow"@ {
            96
        } else if t == "pageBlockSubheader"@ {
            96
        } else if t == "pageBlockTableCell"@ {
            94
        } else if t == "pageBlockVoiceNote"@ {
            96
        } else if t == "sendMessageOptions"@ {
            136
        } else if t == "supergroupFullInfo"@ {
            60
        } else if t == "textEntityTypeBold"@ {
            133
        } else if t == "textEntityTypeCode"@ {
            133
        } else if t == "updateChatChatList"@ {
            241
        } else if t == "updateChatIsPinned"@ {
            247
        } else if t == "updateMessageViews"@ {
            236
        } else if t == "updateNotification"@ {
            262
        } else if t == "updateUserFullInfo"@ {
            273
        } else if t == "userStatusLastWeek"@ {
            140
        } else if t == "userStatusRecently"@ {
            140
        } else if t == "validatedOrderInfo"@ {
            108
        } else if t == "webPageInstantView"@ {
            97
        } else {
            0
        }
    }

    pub open spec fn route_19(t: Seq<char>) -> int {
        if t == "backgroundFillSolid"@ {
            176
        } else if t == "callbackQueryAnswer"@ {
            161
        } else if t == "chatEventLogFilters"@ {
            168
        } else if t == "chatEventMemberLeft"@ {
            165
        } else if t == "customRequestResult"@ {
            162
        } else if t == "inputCredentialsNew"@ {
            105
        } else if t == "inputMessageContact"@ {
            137
        } else if t == "inputMessageInvoice"@ {
            137
        } else if t == "inputMessageSticker"@ {
            137
        } else if t == "languagePackStrings"@ {
            171
        } else if t == "messageExpiredPhoto"@ {
            132
        } else if t == "messageExpiredVideo"@ {
            132
        } else if t == "pageBlockAuthorDate"@ {
            96
        } else if t == "pageBlockBlockQuote"@ {
            96
        } else if t == "richTextPhoneNumber"@ {
            89
        } else if t == "richTextSuperscript"@ {
            89
        } else if t == "testVectorIntObject"@ {
            313
        } else if t == "topChatCategoryBots"@ {
            216
        } else if t == "updateChatActionBar"@ {
            257
        } else if t == "updateChatReadInbox"@ {
            252
        } else if t == "updateMessageEdited"@ {
            235
        } else if t == "userStatusLastMonth"@ {
            140
        } else {
            0
        }
    }

    pub open spec fn route_20(t: Seq<char>) -> int {
        if t == "autoDownloadSettings"@ {
            213
        } else if t == "chatEventPollStopped"@ {
            165
        } else if t == "chatMemberStatusLeft"@ {
            52
        } else if t == "chatReportReasonSpam"@ {
            200
        } else if t == "connectionStateReady"@ {
            215
        } else if t == "deviceTokenApplePush"@ {
            174
        } else if t == "deviceTokenTizenPush"@ {
            174
        } else if t == "encryptedCredentials"@ {
            128
        } else if t == "fileTypeProfilePhoto"@ {
            204
        } else if t == "inlineKeyboardButton"@ {
            86
        } else if t == "inputBackgroundLocal"@ {
            180
        } else if t == "inputMessageDocument"@ {
            137
        } else if t == "inputMessageLocation"@ {
            137
        } else if t == "messageChatUpgradeTo"@ {
            132
        } else if t == "passportElementError"@ {
            123
        } else if t == "recoveryEmailAddress"@ {
            13
        } else if t == "richTextEmailAddress"@ {
            89
        } else if t == "secretChatStateReady"@ {
            61
        } else if t == "tMeUrlTypeChatInvite"@ {
            217
        } else if t == "tMeUrlTypeStickerSet"@ {
            217
        } else if t == "tMeUrlTypeSupergroup"@ {
            217
        } else if t == "textEntityTypeItalic"@ {
            133
        } else if t == "topChatCategoryCalls"@ {
            216
        } else if t == "topChatCategoryUsers"@ {
            216
        } else if t == "updateChatReadOutbox"@ {
            253
        } else if t == "updateDeleteMessages"@ {
            266
        } else if t == "updateMessageContent"@ {
            234
        } else if t == "updateNewCustomEvent"@ {
            301
        } else if t == "updateNewCustomQuery"@ {
            302
        } else if t == "updateNewInlineQuery"@ {
            295
        } else if t == "updateRecentStickers"@ {
            287
        } else if t == "updateTermsOfService"@ {
            293
        } else if t == "updateUserChatAction"@ {
            267
        } else {
            0
        }
    }

    pub open spec fn route_21(t: Seq<char>) -> int {
        if t == "backgroundTypePattern"@ {
            177
        } else if t == "chatEventMemberJoined"@ {
            165
        } else if t == "chatEventPhotoChanged"@ {
            165
        } else if t == "chatEventTitleChanged"@ {
            165
        } else if t == "chatMembersFilterBots"@ {
            55
        } else if t == "deviceTokenSimplePush"@ {
            174
        } else if t == "deviceTokenUbuntuPush"@ {
            174
        } else if t == "inlineQueryResultGame"@ {
            158
        } else if t == "inputBackgroundRemote"@ {
            180
        } else if t == "inputCredentialsSaved"@ {
            105
        } else if t == "inputIdentityDocument"@ {
            116
        } else if t == "inputMessageAnimation"@ {
            137
        } else if t == "inputMessageForwarded"@ {
            137
        } else if t == "inputMessageVideoNote"@ {
            137
        } else if t == "inputMessageVoiceNote"@ {
            137
        } else if t == "inputPersonalDocument"@ {
            118
        } else if t == "messageChatAddMembers"@ {
            132
        } else if t == "messageChatJoinByLink"@ {
            132
        } else if t == "pageBlockEmbeddedPost"@ {
            96
        } else if t == "pageBlockPreformatted"@ {
            96
        } else if t == "replyMarkupForceReply"@ {
            87
        } else if t == "richTextStrikethrough"@ {
            89
        } else if t == "secretChatStateClosed"@ {
            61
        } else if t == "storageStatisticsFast"@ {
            208
        } else if t == "textEntityTypeCashtag"@ {
            133
        } else if t == "textEntityTypeHashtag"@ {
            133
        } else if t == "textEntityTypeMention"@ {
            133
        } else if t == "textEntityTypePreCode"@ {
            133
        } else if t == "textEntityTypeTextUrl"@ {
            133
        } else if t == "textParseModeMarkdown"@ {
            224
        } else if t == "topChatCategoryGroups"@ {
            216
        } else if t == "updateChatIsSponsored"@ {
            249
        } else if t == "updateChatLastMessage"@ {
            245
        } else if t == "updateChatPermissions"@ {
            244
        } else if t == "updateChatReplyMarkup"@ {
            259
        } else if t == "updateConnectionState"@ {
            292
        } else if t == "updateSavedAnimations"@ {
            289
        } else if t == "updateUnreadChatCount"@ {
            283
        } else {
            0
        }
    }

    pub open spec fn route_22(t: Seq<char>) -> int {
        if t == "authenticationCodeInfo"@ {
            5
        } else if t == "backgroundFillGradient"@ {
            176
        } else if t == "callDiscardReasonEmpty"@ {
            146
        } else if t == "callProblemSilentLocal"@ {
            151
        } else if t == "chatEventMemberInvited"@ {
            165
        } else if t == "chatEventMessageEdited"@ {
            165
        } else if t == "chatEventMessagePinned"@ {
            165
        } else if t == "chatMemberStatusBanned"@ {
            52
        } else if t == "chatMemberStatusMember"@ {
            52
        } else if t == "chatReportReasonCustom"@ {
            200
        } else if t == "deviceTokenWindowsPush"@ {
            174
        } else if t == "inlineQueryResultAudio"@ {
            158
        } else if t == "inlineQueryResultPhoto"@ {
            158
        } else if t == "inlineQueryResultVenue"@ {
            158
        } else if t == "inlineQueryResultVideo"@ {
            158
        } else if t == "keyboardButtonTypeText"@ {
            83
        } else if t == "localizationTargetInfo"@ {
            173
        } else if t == "messageChatChangePhoto"@ {
            132
        } else if t == "messageChatChangeTitle"@ {
            132
        } else if t == "messageChatDeletePhoto"@ {
            132
        } else if t == "messageChatUpgradeFrom"@ {
            132
        } else if t == "messageScreenshotTaken"@ {
            132
        } else if t == "passportElementAddress"@ {
            119
        } else if t == "paymentsProviderStripe"@ {
            106
        } else if t == "pushMessageContentGame"@ {
            184
        } else if t == "pushMessageContentPoll"@ {
            184
        } else if t == "pushMessageContentText"@ {
            184
        } else if t == "secretChatStatePending"@ {
            61
        } else if t == "temporaryPasswordState"@ {
            14
        } else if t == "testVectorStringObject"@ {
            315
        } else if t == "updateChatDraftMessage"@ {
            260
        } else if t == "updateFavoriteStickers"@ {
            288
        } else if t == "updateNewCallbackQuery"@ {
            297
        } else if t == "updateNewShippingQuery"@ {
            299
        } else {
            0
        }
    }

    pub open spec fn route_23(t: Seq<char>) -> int {
        if t == "authorizationStateReady"@ {
            11
        } else if t == "backgroundTypeWallpaper"@ {
            177
        } else if t == "callDiscardReasonHungUp"@ {
            146
        } else if t == "callDiscardReasonMissed"@ {
            146
        } else if t == "callProblemSilentRemote"@ {
            151
        } else if t == "callStateExchangingKeys"@ {
            150
        } else if t == "chatActionBarAddContact"@ {
            82
        } else if t == "chatActionBarReportSpam"@ {
            82
        } else if t == "chatEventInvitesToggled"@ {
            165
        } else if t == "chatEventMemberPromoted"@ {
            165
        } else if t == "chatEventMessageDeleted"@ {
            165
        } else if t == "chatMemberStatusCreator"@ {
            52
        } else if t == "chatMembersFilterBanned"@ {
            55
        } else if t == "connectionStateUpdating"@ {
            215
        } else if t == "fileTypeSecretThumbnail"@ {
            204
        } else if t == "messageChatDeleteMember"@ {
            132
        } else if t == "messagePassportDataSent"@ {
            132
        } else if t == "messageWebsiteConnected"@ {
            132
        } else if t == "notificationTypeNewCall"@ {
            185
        } else if t == "pageBlockRelatedArticle"@ {
            95
        } else if t == "passportElementPassport"@ {
            119
        } else if t == "passportRequiredElement"@ {
            125
        } else if t == "passportSuitableElement"@ {
            124
        } else if t == "pushMessageContentAudio"@ {
            184
        } else if t == "pushMessageContentPhoto"@ {
            184
        } else if t == "pushMessageContentVideo"@ {
            184
        } else if t == "replyMarkupShowKeyboard"@ {
            87
        } else if t == "searchMessagesFilterUrl"@ {
            138
        } else if t == "storageStatisticsByChat"@ {
            206
        } else if t == "textEntityTypeUnderline"@ {
            133
        } else if t == "topChatCategoryChannels"@ {
            216
        } else if t == "updateChatPinnedMessage"@ {
            258
        } else if t == "updateMessageSendFailed"@ {
            233
        } else if t == "updateNotificationGroup"@ {
            263
        } else if t == "userPrivacySettingRules"@ {
            193
        } else {
            0
        }
    }

    pub open spec fn route_24(t: Seq<char>) -> int {
        if t == "authorizationStateClosed"@ {
            11
        } else if t == "callProblemInterruptions"@ {
            151
        } else if t == "callbackQueryPayloadData"@ {
            160
        } else if t == "callbackQueryPayloadGame"@ {
            160
        } else if t == "chatActionRecordingVideo"@ {
            139
        } else if t == "chatActionUploadingPhoto"@ {
            139
        } else if t == "chatActionUploadingVideo"@ {
            139
        } else if t == "chatEventLocationChanged"@ {
            165
        } else if t == "chatEventMessageUnpinned"@ {
            165
        } else if t == "chatEventUsernameChanged"@ {
            165
        } else if t == "chatMembersFilterMembers"@ {
            55
        } else if t == "chatNotificationSettings"@ {
            70
        } else if t == "chatReportReasonViolence"@ {
            200
        } else if t == "deviceTokenApplePushVoIP"@ {
            174
        } else if t == "deviceTokenMicrosoftPush"@ {
            174
        } else if t == "encryptedPassportElement"@ {
            129
        } else if t == "inlineQueryResultArticle"@ {
            158
        } else if t == "inlineQueryResultContact"@ {
            158
        } else if t == "inlineQueryResultSticker"@ {
            158
        } else if t == "inputCredentialsApplePay"@ {
            105
        } else if t == "messageContactRegistered"@ {
            132
        } else if t == "messageForwardOriginUser"@ {
            63
        } else if t == "messagePaymentSuccessful"@ {
            132
        } else if t == "networkTypeMobileRoaming"@ {
            210
        } else if t == "pageBlockRelatedArticles"@ {
            96
        } else if t == "pushMessageContentHidden"@ {
            184
        } else if t == "searchMessagesFilterCall"@ {
            138
        } else if t == "textEntityTypeBotCommand"@ {
            133
        } else if t == "updateAuthorizationState"@ {
            229
        } else if t == "updateBasicGroupFullInfo"@ {
            274
        } else if t == "updateFileGenerationStop"@ {
            279
        } else if t == "updateMessageMentionRead"@ {
            238
        } else if t == "updateSelectedBackground"@ {
            290
        } else if t == "updateSupergroupFullInfo"@ {
            275
        } else if t == "updateUnreadMessageCount"@ {
            282
        } else {
            0
        }
    }

    pub open spec fn route_25(t: Seq<char>) -> int {
        if t == "authenticationCodeTypeSms"@ {
            4
        } else if t == "authorizationStateClosing"@ {
            11
        } else if t == "callDiscardReasonDeclined"@ {
            146
        } else if t == "chatActionChoosingContact"@ {
            139
        } else if t == "chatEventMemberRestricted"@ {
            165
        } else if t == "chatMembersFilterContacts"@ {
            55
        } else if t == "chatReportReasonCopyright"@ {
            200
        } else if t == "checkChatUsernameResultOk"@ {
            183
        } else if t == "connectionStateConnecting"@ {
            215
        } else if t == "deviceTokenBlackBerryPush"@ {
            174
        } else if t == "inlineQueryResultDocument"@ {
            158
        } else if t == "inlineQueryResultLocation"@ {
            158
        } else if t == "inputPassportElementError"@ {
            131
        } else if t == "messageSendingStateFailed"@ {
            65
        } else if t == "passportAuthorizationForm"@ {
            126
        } else if t == "publicChatTypeHasUsername"@ {
            81
        } else if t == "pushMessageContentContact"@ {
            184
        } else if t == "pushMessageContentInvoice"@ {
            184
        } else if t == "pushMessageContentSticker"@ {
            184
        } else if t == "replyMarkupInlineKeyboard"@ {
            87
        } else if t == "replyMarkupRemoveKeyboard"@ {
            87
        } else if t == "scopeNotificationSettings"@ {
            71
        } else if t == "searchMessagesFilterAudio"@ {
            138
        } else if t == "searchMessagesFilterEmpty"@ {
            138
        } else if t == "searchMessagesFilterPhoto"@ {
            138
        } else if t == "searchMessagesFilterVideo"@ {
            138
        } else if t == "textEntityTypeMentionName"@ {
            133
        } else if t == "textEntityTypePhoneNumber"@ {
            133
        } else if t == "topChatCategoryInlineBots"@ {
            216
        } else if t == "updateActiveNotifications"@ {
            264
        } else if t == "updateFileGenerationStart"@ {
            278
        } else if t == "updateLanguagePackStrings"@ {
            291
        } else if t == "updateNewPreCheckoutQuery"@ {
            300
        } else if t == "updateServiceNotification"@ {
            276
        } else if t == "updateTrendingStickerSets"@ {
            286
        } else {
            0
        }
    }

    pub open spec fn route_26(t: Seq<char>) -> int {
        if t == "authenticationCodeTypeCall"@ {
            4
        } else if t == "authorizationStateWaitCode"@ {
            11
        } else if t == "callProblemDistortedSpeech"@ {
            151
        } else if t == "chatActionChoosingLocation"@ {
            139
        } else if t == "chatActionStartPlayingGame"@ {
            139
        } else if t == "chatEventLinkedChatChanged"@ {
            165
        } else if t == "chatEventStickerSetChanged"@ {
            165
        } else if t == "chatMemberStatusRestricted"@ {
            52
        } else if t == "chatReportReasonChildAbuse"@ {
            200
        } else if t == "inlineQueryResultAnimation"@ {
            158
        } else if t == "inlineQueryResultVoiceNote"@ {
            158
        } else if t == "inputCredentialsAndroidPay"@ {
            105
        } else if t == "inputInlineQueryResultGame"@ {
            157
        } else if t == "messageCustomServiceAction"@ {
            132
        } else if t == "messageSendingStatePending"@ {
            65
        } else if t == "networkStatisticsEntryCall"@ {
            211
        } else if t == "networkStatisticsEntryFile"@ {
            211
        } else if t == "notificationGroupTypeCalls"@ {
            186
        } else if t == "notificationTypeNewMessage"@ {
            185
        } else if t == "passportElementPhoneNumber"@ {
            119
        } else if t == "passportElementTypeAddress"@ {
            112
        } else if t == "passportElementUtilityBill"@ {
            119
        } else if t == "passportElementsWithErrors"@ {
            127
        } else if t == "pushMessageContentDocument"@ {
            184
        } else if t == "pushMessageContentLocation"@ {
            184
        } else if t == "textEntityTypeEmailAddress"@ {
            133
        } else if t == "updateChatIsMarkedAsUnread"@ {
            248
        } else if t == "updateInstalledStickerSets"@ {
            285
        } else if t == "updateMessageContentOpened"@ {
            237
        } else if t == "updateMessageSendSucceeded"@ {
            232
        } else {
            0
        }
    }

    pub open spec fn route_27(t: Seq<char>) -> int {
        if t == "autoDownloadSettingsPresets"@ {
            214
        } else if t == "chatActionBarReportAddBlock"@ {
            82
        } else if t == "chatActionUploadingDocument"@ {
            139
        } else if t == "chatEventDescriptionChanged"@ {
            165
        } else if t == "chatEventPermissionsChanged"@ {
            165
        } else if t == "chatMembersFilterRestricted"@ {
            55
        } else if t == "chatReportReasonPornography"@ {
            200
        } else if t == "inlineKeyboardButtonTypeBuy"@ {
            85
        } else if t == "inlineKeyboardButtonTypeUrl"@ {
            85
        } else if t == "inputInlineQueryResultAudio"@ {
            157
        } else if t == "inputInlineQueryResultPhoto"@ {
            157
        } else if t == "inputInlineQueryResultVenue"@ {
            157
        } else if t == "inputInlineQueryResultVideo"@ {
            157
        } else if t == "inputPassportElementAddress"@ {
            120
        } else if t == "messageBasicGroupChatCreate"@ {
            132
        } else if t == "messageForwardOriginChannel"@ {
            63
        } else if t == "messagePassportDataReceived"@ {
            132
        } else if t == "messagePaymentSuccessfulBot"@ {
            132
        } else if t == "messageSupergroupChatCreate"@ {
            132
        } else if t == "passportElementEmailAddress"@ {
            119
        } else if t == "passportElementIdentityCard"@ {
            119
        } else if t == "passportElementTypePassport"@ {
            112
        } else if t == "pushMessageContentAnimation"@ {
            184
        } else if t == "pushMessageContentGameScore"@ {
            184
        } else if t == "pushMessageContentVideoNote"@ {
            184
        } else if t == "pushMessageContentVoiceNote"@ {
            184
        } else if t == "searchMessagesFilterMention"@ {
            138
        } else if t == "storageStatisticsByFileType"@ {
            205
        } else if t == "supergroupMembersFilterBots"@ {
            56
        } else if t == "textEntityTypeStrikethrough"@ {
            133
        } else if t == "topChatCategoryForwardChats"@ {
            216
        } else if t == "updateChatOnlineMemberCount"@ {
            261
        } else if t == "updateNewChosenInlineResult"@ {
            296
        } else {
            0
        }
    }

    pub open spec fn route_28(t: Seq<char>) -> int {
        if t == "authorizationStateLoggingOut"@ {
            11
        } else if t == "canTransferOwnershipResultOk"@ {
            182
        } else if t == "chatActionRecordingVideoNote"@ {
            139
        } else if t == "chatActionRecordingVoiceNote"@ {
            139
        } else if t == "chatActionUploadingVideoNote"@ {
            139
        } else if t == "chatActionUploadingVoiceNote"@ {
            139
        } else if t == "chatEventSignMessagesToggled"@ {
            165
        } else if t == "deviceTokenMicrosoftPushVoIP"@ {
            174
        } else if t == "inputPassportElementPassport"@ {
            120
        } else if t == "passportElementBankStatement"@ {
            119
        } else if t == "passportElementDriverLicense"@ {
            119
        } else if t == "pushMessageContentMediaAlbum"@ {
            184
        } else if t == "searchMessagesFilterDocument"@ {
            138
        } else if t == "updateChatUnreadMentionCount"@ {
            254
        } else if t == "updateNewInlineCallbackQuery"@ {
            298
        } else if t == "userPrivacySettingAllowCalls"@ {
            194
        } else if t == "userPrivacySettingShowStatus"@ {
            194
        } else {
            0
        }
    }

    pub open spec fn route_29(t: Seq<char>) -> int {
        if t == "callDiscardReasonDisconnected"@ {
            146
        } else if t == "chatActionBarSharePhoneNumber"@ {
            82
        } else if t == "chatEventSlowModeDelayChanged"@ {
            165
        } else if t == "chatMemberStatusAdministrator"@ {
            52
        } else if t == "inputInlineQueryResultArticle"@ {
            157
        } else if t == "inputInlineQueryResultContact"@ {
            157
        } else if t == "inputInlineQueryResultSticker"@ {
            157
        } else if t == "keyboardButtonTypeRequestPoll"@ {
            83
        } else if t == "notificationGroupTypeMentions"@ {
            186
        } else if t == "notificationGroupTypeMessages"@ {
            186
        } else if t == "notificationTypeNewSecretChat"@ {
            185
        } else if t == "pageBlockVerticalAlignmentTop"@ {
            93
        } else if t == "publicChatTypeIsLocationBased"@ {
            81
        } else if t == "searchMessagesFilterAnimation"@ {
            138
        } else if t == "searchMessagesFilterChatPhoto"@ {
            138
        } else if t == "searchMessagesFilterVideoNote"@ {
            138
        } else if t == "searchMessagesFilterVoiceNote"@ {
            138
        } else if t == "supergroupMembersFilterBanned"@ {
            56
        } else if t == "supergroupMembersFilterRecent"@ {
            56
        } else if t == "supergroupMembersFilterSearch"@ {
            56
        } else if t == "updateMessageSendAcknowledged"@ {
            231
        } else if t == "updateUserPrivacySettingRules"@ {
            281
        } else {
            0
        }
    }

    pub open spec fn route_30(t: Seq<char>) -> int {
        if t == "authorizationStateWaitPassword"@ {
            11
        } else if t == "inputInlineQueryResultDocument"@ {
            157
        } else if t == "inputInlineQueryResultLocation"@ {
            157
        } else if t == "languagePackStringValueDeleted"@ {
            169
        } else if t == "messageForwardOriginHiddenUser"@ {
            63
        } else if t == "notificationTypeNewPushMessage"@ {
            185
        } else if t == "passportElementErrorSourceFile"@ {
            122
        } else if t == "passportElementPersonalDetails"@ {
            119
        } else if t == "passportElementRentalAgreement"@ {
            119
        } else if t == "passportElementTypePhoneNumber"@ {
            112
        } else if t == "passportElementTypeUtilityBill"@ {
            112
        } else if t == "searchMessagesFilterMissedCall"@ {
            138
        } else if t == "updateChatHasScheduledMessages"@ {
            250
        } else if t == "updateChatNotificationSettings"@ {
            255
        } else if t == "updateHavePendingNotifications"@ {
            265
        } else if t == "userPrivacySettingRuleAllowAll"@ {
            192
        } else {
            0
        }
    }

    pub open spec fn route_31(t: Seq<char>) -> int {
        if t == "authenticationCodeTypeFlashCall"@ {
            4
        } else if t == "chatMembersFilterAdministrators"@ {
            55
        } else if t == "inputInlineQueryResultVoiceNote"@ {
            157
        } else if t == "inputPassportElementPhoneNumber"@ {
            120
        } else if t == "inputPassportElementUtilityBill"@ {
            120
        } else if t == "languagePackStringValueOrdinary"@ {
            169
        } else if t == "loginUrlInfoRequestConfirmation"@ {
            88
        } else if t == "notificationGroupTypeSecretChat"@ {
            186
        } else if t == "passportElementErrorSourceFiles"@ {
            122
        } else if t == "passportElementInternalPassport"@ {
            119
        } else if t == "passportElementTypeEmailAddress"@ {
            112
        } else if t == "passportElementTypeIdentityCard"@ {
            112
        } else if t == "supergroupMembersFilterContacts"@ {
            56
        } else if t == "updateMessageLiveLocationViewed"@ {
            239
        } else if t == "updateScopeNotificationSettings"@ {
            256
        } else {
            0
        }
    }

    pub open spec fn route_32(t: Seq<char>) -> int {
        if t == "connectionStateConnectingToProxy"@ {
            215
        } else if t == "connectionStateWaitingForNetwork"@ {
            215
        } else if t == "inlineKeyboardButtonTypeCallback"@ {
            85
        } else if t == "inlineKeyboardButtonTypeLoginUrl"@ {
            85
        } else if t == "inputPassportElementEmailAddress"@ {
            120
        } else if t == "inputPassportElementIdentityCard"@ {
            120
        } else if t == "messageSchedulingStateSendAtDate"@ {
            135
        } else if t == "pageBlockHorizontalAlignmentLeft"@ {
            92
        } else if t == "pageBlockVerticalAlignmentBottom"@ {
            93
        } else if t == "pageBlockVerticalAlignmentMiddle"@ {
            93
        } else if t == "passportElementErrorSourceSelfie"@ {
            122
        } else if t == "passportElementTypeBankStatement"@ {
            112
        } else if t == "passportElementTypeDriverLicense"@ {
            112
        } else if t == "pushMessageContentChatAddMembers"@ {
            184
        } else if t == "pushMessageContentChatJoinByLink"@ {
            184
        } else if t == "userPrivacySettingRuleAllowUsers"@ {
            192
        } else {
            0
        }
    }

    pub open spec fn route_33(t: Seq<char>) -> int {
        if t == "authorizationStateWaitPhoneNumber"@ {
            11
        } else if t == "chatReportReasonUnrelatedLocation"@ {
            200
        } else if t == "deviceTokenFirebaseCloudMessaging"@ {
            174
        } else if t == "inputInlineQueryResultAnimatedGif"@ {
            157
        } else if t == "inputPassportElementBankStatement"@ {
            120
        } else if t == "inputPassportElementDriverLicense"@ {
            120
        } else if t == "keyboardButtonTypeRequestLocation"@ {
            83
        } else if t == "languagePackStringValuePluralized"@ {
            169
        } else if t == "pageBlockHorizontalAlignmentRight"@ {
            92
        } else if t == "phoneNumberAuthenticationSettings"@ {
            153
        } else if t == "pushMessageContentChatChangePhoto"@ {
            184
        } else if t == "pushMessageContentChatChangeTitle"@ {
            184
        } else if t == "pushMessageContentMessageForwards"@ {
            184
        } else if t == "pushMessageContentScreenshotTaken"@ {
            184
        } else if t == "searchMessagesFilterPhotoAndVideo"@ {
            138
        } else if t == "searchMessagesFilterUnreadMention"@ {
            138
        } else if t == "supergroupMembersFilterRestricted"@ {
            56
        } else if t == "userPrivacySettingRuleRestrictAll"@ {
            192
        } else if t == "userPrivacySettingShowPhoneNumber"@ {
            194
        } else {
            0
        }
    }

    pub open spec fn route_34(t: Seq<char>) -> int {
        if t == "authorizationStateWaitRegistration"@ {
            11
        } else if t == "emailAddressAuthenticationCodeInfo"@ {
            6
        } else if t == "pageBlockHorizontalAlignmentCenter"@ {
            92
        } else if t == "passportElementTypePersonalDetails"@ {
            112
        } else if t == "passportElementTypeRentalAgreement"@ {
            112
        } else if t == "pushMessageContentChatDeleteMember"@ {
            184
        } else if t == "userPrivacySettingAllowChatInvites"@ {
            194
        } else if t == "userPrivacySettingShowProfilePhoto"@ {
            194
        } else {
            0
        }
    }

    pub open spec fn route_35(t: Seq<char>) -> int {
        if t == "authorizationStateWaitEncryptionKey"@ {
            11
        } else if t == "inputInlineQueryResultAnimatedMpeg4"@ {
            157
        } else if t == "inputPassportElementErrorSourceFile"@ {
            130
        } else if t == "inputPassportElementPersonalDetails"@ {
            120
        } else if t == "inputPassportElementRentalAgreement"@ {
            120
        } else if t == "notificationSettingsScopeGroupChats"@ {
            69
        } else if t == "passportElementErrorSourceDataField"@ {
            122
        } else if t == "passportElementErrorSourceFrontSide"@ {
            122
        } else if t == "passportElementPassportRegistration"@ {
            119
        } else if t == "passportElementTypeInternalPassport"@ {
            112
        } else if t == "pushMessageContentContactRegistered"@ {
            184
        } else if t == "userPrivacySettingRuleAllowContacts"@ {
            192
        } else if t == "userPrivacySettingRuleRestrictUsers"@ {
            192
        } else {
            0
        }
    }

    pub open spec fn route_36(t: Seq<char>) -> int {
        if t == "chatActionBarReportUnrelatedLocation"@ {
            82
        } else if t == "inlineKeyboardButtonTypeCallbackGame"@ {
            85
        } else if t == "inlineKeyboardButtonTypeSwitchInline"@ {
            85
        } else if t == "inputPassportElementErrorSourceFiles"@ {
            130
        } else if t == "inputPassportElementInternalPassport"@ {
            120
        } else if t == "keyboardButtonTypeRequestPhoneNumber"@ {
            83
        } else if t == "messageSchedulingStateSendWhenOnline"@ {
            135
        } else if t == "passportElementTemporaryRegistration"@ {
            119
        } else if t == "updateChatDefaultDisableNotification"@ {
            251
        } else {
            0
        }
    }

    pub open spec fn route_37(t: Seq<char>) -> int {
        if t == "authenticationCodeTypeTelegramMessage"@ {
            4
        } else if t == "authorizationStateWaitTdlibParameters"@ {
            11
        } else if t == "chatEventIsAllHistoryAvailableToggled"@ {
            165
        } else if t == "inputPassportElementErrorSourceSelfie"@ {
            130
        } else if t == "notificationSettingsScopeChannelChats"@ {
            69
        } else if t == "notificationSettingsScopePrivateChats"@ {
            69
        } else if t == "passportElementErrorSourceReverseSide"@ {
            122
        } else if t == "passportElementErrorSourceUnspecified"@ {
            122
        } else if t == "searchMessagesFilterVoiceAndVideoNote"@ {
            138
        } else if t == "supergroupMembersFilterAdministrators"@ {
            56
        } else {
            0
        }
    }

    pub open spec fn route_38(t: Seq<char>) -> int {
        if t == "checkChatUsernameResultUsernameInvalid"@ {
            183
        } else if t == "pushMessageContentBasicGroupChatCreate"@ {
            184
        } else if t == "userPrivacySettingAllowPeerToPeerCalls"@ {
            194
        } else if t == "userPrivacySettingRuleAllowChatMembers"@ {
            192
        } else if t == "userPrivacySettingRuleRestrictContacts"@ {
            192
        } else {
            0
        }
    }

    pub open spec fn route_39(t: Seq<char>) -> int {
        if t == "checkChatUsernameResultUsernameOccupied"@ {
            183
        } else if t == "passportElementTypePassportRegistration"@ {
            112
        } else {
            0
        }
    }

    pub open spec fn route_40(t: Seq<char>) -> int {
        if t == "canTransferOwnershipResultPasswordNeeded"@ {
            182
        } else if t == "inputPassportElementErrorSourceDataField"@ {
            130
        } else if t == "inputPassportElementErrorSourceFrontSide"@ {
            130
        } else if t == "inputPassportElementPassportRegistration"@ {
            120
        } else if t == "passportElementTypeTemporaryRegistration"@ {
            112
        } else {
            0
        }
    }

    pub open spec fn route_41(t: Seq<char>) -> int {
        if t == "canTransferOwnershipResultSessionTooFresh"@ {
            182
        } else if t == "checkChatUsernameResultPublicChatsTooMuch"@ {
            183
        } else if t == "inputPassportElementTemporaryRegistration"@ {
            120
        } else if t == "passportElementErrorSourceTranslationFile"@ {
            122
        } else if t == "userPrivacySettingRuleRestrictChatMembers"@ {
            192
        } else {
            0
        }
    }

    pub open spec fn route_42(t: Seq<char>) -> int {
        if t == "canTransferOwnershipResultPasswordTooFresh"@ {
            182
        } else if t == "inputPassportElementErrorSourceReverseSide"@ {
            130
        } else if t == "inputPassportElementErrorSourceUnspecified"@ {
            130
        } else if t == "passportElementErrorSourceTranslationFiles"@ {
            122
        } else {
            0
        }
    }

    pub open spec fn route_43(t: Seq<char>) -> int {
        if t == "userPrivacySettingAllowFindingByPhoneNumber"@ {
            194
        } else {
            0
        }
    }

    pub open spec fn route_45(t: Seq<char>) -> int {
        if t == "authorizationStateWaitOtherDeviceConfirmation"@ {
            11
        } else if t == "userPrivacySettingShowLinkInForwardedMessages"@ {
            194
        } else {
            0
        }
    }

    pub open spec fn route_46(t: Seq<char>) -> int {
        if t == "checkChatUsernameResultPublicGroupsUnavailable"@ {
            183
        } else if t == "inputPassportElementErrorSourceTranslationFile"@ {
            130
        } else {
            0
        }
    }

    pub open spec fn route_47(t: Seq<char>) -> int {
        if t == "inputPassportElementErrorSourceTranslationFiles"@ {
            130
        } else {
            0
        }
    }

    /// What the arm numbered `arm` makes of the document.
    pub open spec fn parse_arm(arm: int, d: Doc, at: Seq<char>) -> Result<Doc, Fault> {
        Self::parse_arm_1(arm, d, at)
    }

    pub open spec fn parse_arm_1(arm: int, d: Doc, at: Seq<char>) -> Result<Doc, Fault> {
        if arm == 1 {
            Error::parse(d, at)
        } else if arm == 2 {
            Okay::parse(d, at)
        } else if arm == 3 {
            TdlibParameters::parse(d, at)
        } else if arm == 4 {
            AuthenticationCodeType::parse(d, at)
        } else if arm == 5 {
            AuthenticationCodeInfo::parse(d, at)
        } else if arm == 6 {
            EmailAddressAuthenticationCodeInfo::parse(d, at)
        } else if arm == 7 {
            TextEntity::parse(d, at)
        } else if arm == 8 {
            TextEntities::parse(d, at)
        } else if arm == 9 {
            FormattedText::parse(d, at)
        } else if arm == 10 {
            TermsOfService::parse(d, at)
        } else if arm == 11 {
            AuthorizationState::parse(d, at)
        } else if arm == 12 {
            PasswordState::parse(d, at)
        } else {
            Self::parse_arm_2(arm, d, at)
        }
    }

    pub open spec fn parse_arm_2(arm: int, d: Doc, at: Seq<char>) -> Result<Doc, Fault> {
        if arm == 13 {
            RecoveryEmailAddress::parse(d, at)
        } else if arm == 14 {
            TemporaryPasswordState::parse(d, at)
        } else if arm == 15 {
            LocalFile::parse(d, at)
        } else if arm == 16 {
            RemoteFile::parse(d, at)
        } else if arm == 17 {
            File::parse(d, at)
        } else if arm == 18 {
            InputFile::parse(d, at)
        } else if arm == 19 {
            PhotoSize::parse(d, at)
        } else if arm == 20 {
            Minithumbnail::parse(d, at)
        } else if arm == 21 {
            MaskPoint::parse(d, at)
        } else if arm == 22 {
            MaskPosition::parse(d, at)
        } else if arm == 23 {
            PollOption::parse(d, at)
        } else if arm == 24 {
            PollType::parse(d, at)
        } else {
            Self::parse_arm_3(arm, d, at)
        }
    }

    pub open spec fn parse_arm_3(arm: int, d: Doc, at: Seq<char>) -> Result<Doc, Fault> {
        if arm == 25 {
            Animation::parse(d, at)
        } else if arm == 26 {
            Audio::parse(d, at)
        } else if arm == 27 {
            Document::parse(d, at)
        } else if arm == 28 {
            Photo::parse(d, at)
        } else if arm == 29 {
            Sticker::parse(d, at)
        } else if arm == 30 {
            Video::parse(d, at)
        } else if arm == 31 {
            VideoNote::parse(d, at)
        } else if arm == 32 {
            VoiceNote::parse(d, at)
        } else if arm == 33 {
            Contact::parse(d, at)
        } else if arm == 34 {
            Location::parse(d, at)
        } else if arm == 35 {
            Venue::parse(d, at)
        } else if arm == 36 {
            Game::parse(d, at)
        } else {
            Self::parse_arm_4(arm, d, at)
        }
    }

    pub open spec fn parse_arm_4(arm: int, d: Doc, at: Seq<char>) -> Result<Doc, Fault> {
        if arm == 37 {
            Poll::parse(d, at)
        } else if arm == 38 {
            ProfilePhoto::parse(d, at)
        } else if arm == 39 {
            ChatPhoto::parse(d, at)
        } else if arm == 40 {
            UserType::parse(d, at)
        } else if arm == 41 {
            BotCommand::parse(d, at)
        } else if arm == 42 {
            BotInfo::parse(d, at)
        } else if arm == 43 {
            ChatLocation::parse(d, at)
        } else if arm == 44 {
            User::parse(d, at)
        } else if arm == 45 {
            UserFullInfo::parse(d, at)
        } else if arm == 46 {
            UserProfilePhoto::parse(d, at)
        } else if arm == 47 {
            UserProfilePhotos::parse(d, at)
        } else if arm == 48 {
            Users::parse(d, at)
        } else {
            Self::parse_arm_5(arm, d, at)
        }
    }

    pub open spec fn parse_arm_5(arm: int, d: Doc, at: Seq<char>) -> Result<Doc, Fault> {
        if arm == 49 {
            ChatAdministrator::parse(d, at)
        } else if arm == 50 {
            ChatAdministrators::parse(d, at)
        } else if arm == 51 {
            ChatPermissions::parse(d, at)
        } else if arm == 52 {
            ChatMemberStatus::parse(d, at)
        } else if arm == 53 {
            ChatMember::parse(d, at)
        } else if arm == 54 {
            ChatMembers::parse(d, at)
        } else if arm == 55 {
            ChatMembersFilter::parse(d, at)
        } else if arm == 56 {
            SupergroupMembersFilter::parse(d, at)
        } else if arm == 57 {
            BasicGroup::parse(d, at)
        } else if arm == 58 {
            BasicGroupFullInfo::parse(d, at)
        } else if arm == 59 {
            Supergroup::parse(d, at)
        } else if arm == 60 {
            SupergroupFullInfo::parse(d, at)
        } else {
            Self::parse_arm_6(arm, d, at)
        }
    }

    pub open spec fn parse_arm_6(arm: int, d: Doc, at: Seq<char>) -> Result<Doc, Fault> {
        if arm == 61 {
            SecretChatState::parse(d, at)
        } else if arm == 62 {
            SecretChat::parse(d, at)
        } else if arm == 63 {
            MessageForwardOrigin::parse(d, at)
        } else if arm == 64 {
            MessageForwardInfo::parse(d, at)
        } else if arm == 65 {
            MessageSendingState::parse(d, at)
        } else if arm == 66 {
            Message::parse(d, at)
        } else if arm == 67 {
            Messages::parse(d, at)
        } else if arm == 68 {
            FoundMessages::parse(d, at)
        } else if arm == 69 {
            NotificationSettingsScope::parse(d, at)
        } else if arm == 70 {
            ChatNotificationSettings::parse(d, at)
        } else if arm == 71 {
            ScopeNotificationSettings::parse(d, at)
        } else if arm == 72 {
            DraftMessage::parse(d, at)
        } else {
            Self::parse_arm_7(arm, d, at)
        }
    }

    pub open spec fn parse_arm_7(arm: int, d: Doc, at: Seq<char>) -> Result<Doc, Fault> {
        if arm == 73 {
            ChatType::parse(d, at)
        } else if arm == 74 {
            ChatList::parse(d, at)
        } else if arm == 75 {
            Chat::parse(d, at)
        } else if arm == 76 {
            Chats::parse(d, at)
        } else if arm == 77 {
            ChatNearby::parse(d, at)
        } else if arm == 78 {
            ChatsNearby::parse(d, at)
        } else if arm == 79 {
            ChatInviteLink::parse(d, at)
        } else if arm == 80 {
            ChatInviteLinkInfo::parse(d, at)
        } else if arm == 81 {
            PublicChatType::parse(d, at)
        } else if arm == 82 {
            ChatActionBar::parse(d, at)
        } else if arm == 83 {
            KeyboardButtonType::parse(d, at)
        } else if arm == 84 {
            KeyboardButton::parse(d, at)
        } else {
            Self::parse_arm_8(arm, d, at)
        }
    }

    pub open spec fn parse_arm_8(arm: int, d: Doc, at: Seq<char>) -> Result<Doc, Fault> {
        if arm == 85 {
            InlineKeyboardButtonType::parse(d, at)
        } else if arm == 86 {
            InlineKeyboardButton::parse(d, at)
        } else if arm == 87 {
            ReplyMarkup::parse(d, at)
        } else if arm == 88 {
            LoginUrlInfo::parse(d, at)
        } else if arm == 89 {
            RichText::parse(d, at)
        } else if arm == 90 {
            PageBlockCaption::parse(d, at)
        } else if arm == 91 {
            PageBlockListItem::parse(d, at)
        } else if arm == 92 {
            PageBlockHorizontalAlignment::parse(d, at)
        } else if arm == 93 {
            PageBlockVerticalAlignment::parse(d, at)
        } else if arm == 94 {
            PageBlockTableCell::parse(d, at)
        } else if arm == 95 {
            PageBlockRelatedArticle::parse(d, at)
        } else if arm == 96 {
            PageBlock::parse(d, at)
        } else {
            Self::parse_arm_9(arm, d, at)
        }
    }

    pub open spec fn parse_arm_9(arm: int, d: Doc, at: Seq<char>) -> Result<Doc, Fault> {
        if arm == 97 {
            WebPageInstantView::parse(d, at)
        } else if arm == 98 {
            WebPage::parse(d, at)
        } else if arm == 99 {
            Address::parse(d, at)
        } else if arm == 100 {
            LabeledPricePart::parse(d, at)
        } else if arm == 101 {
            Invoice::parse(d, at)
        } else if arm == 102 {
            OrderInfo::parse(d, at)
        } else if arm == 103 {
            ShippingOption::parse(d, at)
        } else if arm == 104 {
            SavedCredentials::parse(d, at)
        } else if arm == 105 {
            InputCredentials::parse(d, at)
        } else if arm == 106 {
            PaymentsProviderStripe::parse(d, at)
        } else if arm == 107 {
            PaymentForm::parse(d, at)
        } else if arm == 108 {
            ValidatedOrderInfo::parse(d, at)
        } else {
            Self::parse_arm_10(arm, d, at)
        }
    }

    pub open spec fn parse_arm_10(arm: int, d: Doc, at: Seq<char>) -> Result<Doc, Fault> {
        if arm == 109 {
            PaymentResult::parse(d, at)
        } else if arm == 110 {
            PaymentReceipt::parse(d, at)
        } else if arm == 111 {
            DatedFile::parse(d, at)
        } else if arm == 112 {
            PassportElementType::parse(d, at)
        } else if arm == 113 {
            Date::parse(d, at)
        } else if arm == 114 {
            PersonalDetails::parse(d, at)
        } else if arm == 115 {
            IdentityDocument::parse(d, at)
        } else if arm == 116 {
            InputIdentityDocument::parse(d, at)
        } else if arm == 117 {
            PersonalDocument::parse(d, at)
        } else if arm == 118 {
            InputPersonalDocument::parse(d, at)
        } else if arm == 119 {
            PassportElement::parse(d, at)
        } else if arm == 120 {
            InputPassportElement::parse(d, at)
        } else {
            Self::parse_arm_11(arm, d, at)
        }
    }

    pub open spec fn parse_arm_11(arm: int, d: Doc, at: Seq<char>) -> Result<Doc, Fault> {
        if arm == 121 {
            PassportElements::parse(d, at)
        } else if arm == 122 {
            PassportElementErrorSource::parse(d, at)
        } else if arm == 123 {
            PassportElementError::parse(d, at)
        } else if arm == 124 {
            PassportSuitableElement::parse(d, at)
        } else if arm == 125 {
            PassportRequiredElement::parse(d, at)
        } else if arm == 126 {
            PassportAuthorizationForm::parse(d, at)
        } else if arm == 127 {
            PassportElementsWithErrors::parse(d, at)
        } else if arm == 128 {
            EncryptedCredentials::parse(d, at)
        } else if arm == 129 {
            EncryptedPassportElement::parse(d, at)
        } else if arm == 130 {
            InputPassportElementErrorSource::parse(d, at)
        } else if arm == 131 {
            InputPassportElementError::parse(d, at)
        } else if arm == 132 {
            MessageContent::parse(d, at)
        } else {
            Self::parse_arm_12(arm, d, at)
        }
    }

    pub open spec fn parse_arm_12(arm: int, d: Doc, at: Seq<char>) -> Result<Doc, Fault> {
        if arm == 133 {
            TextEntityType::parse(d, at)
        } else if arm == 134 {
            InputThumbnail::parse(d, at)
        } else if arm == 135 {
            MessageSchedulingState::parse(d, at)
        } else if arm == 136 {
            SendMessageOptions::parse(d, at)
        } else if arm == 137 {
            InputMessageContent::parse(d, at)
        } else if arm == 138 {
            SearchMessagesFilter::parse(d, at)
        } else if arm == 139 {
            ChatAction::parse(d, at)
        } else if arm == 140 {
            UserStatus::parse(d, at)
        } else if arm == 141 {
            Stickers::parse(d, at)
        } else if arm == 142 {
            Emojis::parse(d, at)
        } else if arm == 143 {
            StickerSet::parse(d, at)
        } else if arm == 144 {
            StickerSetInfo::parse(d, at)
        } else {
            Self::parse_arm_13(arm, d, at)
        }
    }

    pub open spec fn parse_arm_13(arm: int, d: Doc, at: Seq<char>) -> Result<Doc, Fault> {
        if arm == 145 {
            StickerSets::parse(d, at)
        } else if arm == 146 {
            CallDiscardReason::parse(d, at)
        } else if arm == 147 {
            CallProtocol::parse(d, at)
        } else if arm == 148 {
            CallConnection::parse(d, at)
        } else if arm == 149 {
            CallId::parse(d, at)
        } else if arm == 150 {
            CallState::parse(d, at)
        } else if arm == 151 {
            CallProblem::parse(d, at)
        } else if arm == 152 {
            Call::parse(d, at)
        } else if arm == 153 {
            PhoneNumberAuthenticationSettings::parse(d, at)
        } else if arm == 154 {
            Animations::parse(d, at)
        } else if arm == 155 {
            ImportedContacts::parse(d, at)
        } else if arm == 156 {
            HttpUrl::parse(d, at)
        } else {
            Self::parse_arm_14(arm, d, at)
        }
    }

    pub open spec fn parse_arm_14(arm: int, d: Doc, at: Seq<char>) -> Result<Doc, Fault> {
        if arm == 157 {
            InputInlineQueryResult::parse(d, at)
        } else if arm == 158 {
            InlineQueryResult::parse(d, at)
        } else if arm == 159 {
            InlineQueryResults::parse(d, at)
        } else if arm == 160 {
            CallbackQueryPayload::parse(d, at)
        } else if arm == 161 {
            CallbackQueryAnswer::parse(d, at)
        } else if arm == 162 {
            CustomRequestResult::parse(d, at)
        } else if arm == 163 {
            GameHighScore::parse(d, at)
        } else if arm == 164 {
            GameHighScores::parse(d, at)
        } else if arm == 165 {
            ChatEventAction::parse(d, at)
        } else if arm == 166 {
            ChatEvent::parse(d, at)
        } else if arm == 167 {
            ChatEvents::parse(d, at)
        } else if arm == 168 {
            ChatEventLogFilters::parse(d, at)
        } else {
            Self::parse_arm_15(arm, d, at)
        }
    }

    pub open spec fn parse_arm_15(arm: int, d: Doc, at: Seq<char>) -> Result<Doc, Fault> {
        if arm == 169 {
            LanguagePackStringValue::parse(d, at)
        } else if arm == 170 {
            LanguagePackString::parse(d, at)
        } else if arm == 171 {
            LanguagePackStrings::parse(d, at)
        } else if arm == 172 {
            LanguagePackInfo::parse(d, at)
        } else if arm == 173 {
            LocalizationTargetInfo::parse(d, at)
        } else if arm == 174 {
            DeviceToken::parse(d, at)
        } else if arm == 175 {
            PushReceiverId::parse(d, at)
        } else if arm == 176 {
            BackgroundFill::parse(d, at)
        } else if arm == 177 {
            BackgroundType::parse(d, at)
        } else if arm == 178 {
            Background::parse(d, at)
        } else if arm == 179 {
            Backgrounds::parse(d, at)
        } else if arm == 180 {
            InputBackground::parse(d, at)
        } else {
            Self::parse_arm_16(arm, d, at)
        }
    }

    pub open spec fn parse_arm_16(arm: int, d: Doc, at: Seq<char>) -> Result<Doc, Fault> {
        if arm == 181 {
            Hashtags::parse(d, at)
        } else if arm == 182 {
            CanTransferOwnershipResult::parse(d, at)
        } else if arm == 183 {
            CheckChatUsernameResult::parse(d, at)
        } else if arm == 184 {
            PushMessageContent::parse(d, at)
        } else if arm == 185 {
            NotificationType::parse(d, at)
        } else if arm == 186 {
            NotificationGroupType::parse(d, at)
        } else if arm == 187 {
            Notification::parse(d, at)
        } else if arm == 188 {
            NotificationGroup::parse(d, at)
        } else if arm == 189 {
            OptionValue::parse(d, at)
        } else if arm == 190 {
            JsonObjectMember::parse(d, at)
        } else if arm == 191 {
            JsonValue::parse(d, at)
        } else if arm == 192 {
            UserPrivacySettingRule::parse(d, at)
        } else {
            Self::parse_arm_17(arm, d, at)
        }
    }

    pub open spec fn parse_arm_17(arm: int, d: Doc, at: Seq<char>) -> Result<Doc, Fault> {
        if arm == 193 {
            UserPrivacySettingRules::parse(d, at)
        } else if arm == 194 {
            UserPrivacySetting::parse(d, at)
        } else if arm == 195 {
            AccountTtl::parse(d, at)
        } else if arm == 196 {
            Session::parse(d, at)
        } else if arm == 197 {
            Sessions::parse(d, at)
        } else if arm == 198 {
            ConnectedWebsite::parse(d, at)
        } else if arm == 199 {
            ConnectedWebsites::parse(d, at)
        } else if arm == 200 {
            ChatReportReason::parse(d, at)
        } else if arm == 201 {
            PublicMessageLink::parse(d, at)
        } else if arm == 202 {
            MessageLinkInfo::parse(d, at)
        } else if arm == 203 {
            FilePart::parse(d, at)
        } else if arm == 204 {
            FileType::parse(d, at)
        } else {
            Self::parse_arm_18(arm, d, at)
        }
    }

    pub open spec fn parse_arm_18(arm: int, d: Doc, at: Seq<char>) -> Result<Doc, Fault> {
        if arm == 205 {
            StorageStatisticsByFileType::parse(d, at)
        } else if arm == 206 {
            StorageStatisticsByChat::parse(d, at)
        } else if arm == 207 {
            StorageStatistics::parse(d, at)
        } else if arm == 208 {
            StorageStatisticsFast::parse(d, at)
        } else if arm == 209 {
            DatabaseStatistics::parse(d, at)
        } else if arm == 210 {
            NetworkType::parse(d, at)
        } else if arm == 211 {
            NetworkStatisticsEntry::parse(d, at)
        } else if arm == 212 {
            NetworkStatistics::parse(d, at)
        } else if arm == 213 {
            AutoDownloadSettings::parse(d, at)
        } else if arm == 214 {
            AutoDownloadSettingsPresets::parse(d, at)
        } else if arm == 215 {
            ConnectionState::parse(d, at)
        } else if arm == 216 {
            TopChatCategory::parse(d, at)
        } else {
            Self::parse_arm_19(arm, d, at)
        }
    }

    pub open spec fn parse_arm_19(arm: int, d: Doc, at: Seq<char>) -> Result<Doc, Fault> {
        if arm == 217 {
            TMeUrlType::parse(d, at)
        } else if arm == 218 {
            TMeUrl::parse(d, at)
        } else if arm == 219 {
            TMeUrls::parse(d, at)
        } else if arm == 220 {
            Count::parse(d, at)
        } else if arm == 221 {
            Text::parse(d, at)
        } else if arm == 222 {
            Seconds::parse(d, at)
        } else if arm == 223 {
            DeepLinkInfo::parse(d, at)
        } else if arm == 224 {
            TextParseMode::parse(d, at)
        } else if arm == 225 {
            ProxyType::parse(d, at)
        } else if arm == 226 {
            Proxy::parse(d, at)
        } else if arm == 227 {
            Proxies::parse(d, at)
        } else if arm == 228 {
            InputSticker::parse(d, at)
        } else {
            Self::parse_arm_20(arm, d, at)
        }
    }

    pub open spec fn parse_arm_20(arm: int, d: Doc, at: Seq<char>) -> Result<Doc, Fault> {
        if arm == 229 {
            UpdateAuthorizationState::parse(d, at)
        } else if arm == 230 {
            UpdateNewMessage::parse(d, at)
        } else if arm == 231 {
            UpdateMessageSendAcknowledged::parse(d, at)
        } else if arm == 232 {
            UpdateMessageSendSucceeded::parse(d, at)
        } else if arm == 233 {
            UpdateMessageSendFailed::parse(d, at)
        } else if arm == 234 {
            UpdateMessageContent::parse(d, at)
        } else if arm == 235 {
            UpdateMessageEdited::parse(d, at)
        } else if arm == 236 {
            UpdateMessageViews::parse(d, at)
        } else if arm == 237 {
            UpdateMessageContentOpened::parse(d, at)
        } else if arm == 238 {
            UpdateMessageMentionRead::parse(d, at)
        } else if arm == 239 {
            UpdateMessageLiveLocationViewed::parse(d, at)
        } else if arm == 240 {
            UpdateNewChat::parse(d, at)
        } else {
            Self::parse_arm_21(arm, d, at)
        }
    }

    pub open spec fn parse_arm_21(arm: int, d: Doc, at: Seq<char>) -> Result<Doc, Fault> {
        if arm == 241 {
            UpdateChatChatList::parse(d, at)
        } else if arm == 242 {
            UpdateChatTitle::parse(d, at)
        } else if arm == 243 {
            UpdateChatPhoto::parse(d, at)
        } else if arm == 244 {
            UpdateChatPermissions::parse(d, at)
        } else if arm == 245 {
            UpdateChatLastMessage::parse(d, at)
        } else if arm == 246 {
            UpdateChatOrder::parse(d, at)
        } else if arm == 247 {
            UpdateChatIsPinned::parse(d, at)
        } else if arm == 248 {
            UpdateChatIsMarkedAsUnread::parse(d, at)
        } else if arm == 249 {
            UpdateChatIsSponsored::parse(d, at)
        } else if arm == 250 {
            UpdateChatHasScheduledMessages::parse(d, at)
        } else if arm == 251 {
            UpdateChatDefaultDisableNotification::parse(d, at)
        } else if arm == 252 {
            UpdateChatReadInbox::parse(d, at)
        } else {
            Self::parse_arm_22(arm, d, at)
        }
    }

    pub open spec fn parse_arm_22(arm: int, d: Doc, at: Seq<char>) -> Result<Doc, Fault> {
        if arm == 253 {
            UpdateChatReadOutbox::parse(d, at)
        } else if arm == 254 {
            UpdateChatUnreadMentionCount::parse(d, at)
        } else if arm == 255 {
            UpdateChatNotificationSettings::parse(d, at)
        } else if arm == 256 {
            UpdateScopeNotificationSettings::parse(d, at)
        } else if arm == 257 {
            UpdateChatActionBar::parse(d, at)
        } else if arm == 258 {
            UpdateChatPinnedMessage::parse(d, at)
        } else if arm == 259 {
            UpdateChatReplyMarkup::parse(d, at)
        } else if arm == 260 {
            UpdateChatDraftMessage::parse(d, at)
        } else if arm == 261 {
            UpdateChatOnlineMemberCount::parse(d, at)
        } else if arm == 262 {
            UpdateNotification::parse(d, at)
        } else if arm == 263 {
            UpdateNotificationGroup::parse(d, at)
        } else if arm == 264 {
            UpdateActiveNotifications::parse(d, at)
        } else {
            Self::parse_arm_23(arm, d, at)
        }
    }

    pub open spec fn parse_arm_23(arm: int, d: Doc, at: Seq<char>) -> Result<Doc, Fault> {
        if arm == 265 {
            UpdateHavePendingNotifications::parse(d, at)
        } else if arm == 266 {
            UpdateDeleteMessages::parse(d, at)
        } else if arm == 267 {
            UpdateUserChatAction::parse(d, at)
        } else if arm == 268 {
            UpdateUserStatus::parse(d, at)
        } else if arm == 269 {
            UpdateUser::parse(d, at)
        } else if arm == 270 {
            UpdateBasicGroup::parse(d, at)
        } else if arm == 271 {
            UpdateSupergroup::parse(d, at)
        } else if arm == 272 {
            UpdateSecretChat::parse(d, at)
        } else if arm == 273 {
            UpdateUserFullInfo::parse(d, at)
        } else if arm == 274 {
            UpdateBasicGroupFullInfo::parse(d, at)
        } else if arm == 275 {
            UpdateSupergroupFullInfo::parse(d, at)
        } else if arm == 276 {
            UpdateServiceNotification::parse(d, at)
        } else {
            Self::parse_arm_24(arm, d, at)
        }
    }

    pub open spec fn parse_arm_24(arm: int, d: Doc, at: Seq<char>) -> Result<Doc, Fault> {
        if arm == 277 {
            UpdateFile::parse(d, at)
        } else if arm == 278 {
            UpdateFileGenerationStart::parse(d, at)
        } else if arm == 279 {
            UpdateFileGenerationStop::parse(d, at)
        } else if arm == 280 {
            UpdateCall::parse(d, at)
        } else if arm == 281 {
            UpdateUserPrivacySettingRules::parse(d, at)
        } else if arm == 282 {
            UpdateUnreadMessageCount::parse(d, at)
        } else if arm == 283 {
            UpdateUnreadChatCount::parse(d, at)
        } else if arm == 284 {
            UpdateOption::parse(d, at)
        } else if arm == 285 {
            UpdateInstalledStickerSets::parse(d, at)
        } else if arm == 286 {
            UpdateTrendingStickerSets::parse(d, at)
        } else if arm == 287 {
            UpdateRecentStickers::parse(d, at)
        } else if arm == 288 {
            UpdateFavoriteStickers::parse(d, at)
        } else {
            Self::parse_arm_25(arm, d, at)
        }
    }

    pub open spec fn parse_arm_25(arm: int, d: Doc, at: Seq<char>) -> Result<Doc, Fault> {
        if arm == 289 {
            UpdateSavedAnimations::parse(d, at)
        } else if arm == 290 {
            UpdateSelectedBackground::parse(d, at)
        } else if arm == 291 {
            UpdateLanguagePackStrings::parse(d, at)
        } else if arm == 292 {
            UpdateConnectionState::parse(d, at)
        } else if arm == 293 {
            UpdateTermsOfService::parse(d, at)
        } else if arm == 294 {
            UpdateUsersNearby::parse(d, at)
        } else if arm == 295 {
            UpdateNewInlineQuery::parse(d, at)
        } else if arm == 296 {
            UpdateNewChosenInlineResult::parse(d, at)
        } else if arm == 297 {
            UpdateNewCallbackQuery::parse(d, at)
        } else if arm == 298 {
            UpdateNewInlineCallbackQuery::parse(d, at)
        } else if arm == 299 {
            UpdateNewShippingQuery::parse(d, at)
        } else if arm == 300 {
            UpdateNewPreCheckoutQuery::parse(d, at)
        } else {
            Self::parse_arm_26(arm, d, at)
        }
    }

    pub open spec fn parse_arm_26(arm: int, d: Doc, at: Seq<char>) -> Result<Doc, Fault> {
        if arm == 301 {
            UpdateNewCustomEvent::parse(d, at)
        } else if arm == 302 {
            UpdateNewCustomQuery::parse(d, at)
        } else if arm == 303 {
            UpdatePoll::parse(d, at)
        } else if arm == 304 {
            UpdatePollAnswer::parse(d, at)
        } else if arm == 305 {
            Updates::parse(d, at)
        } else if arm == 306 {
            LogStream::parse(d, at)
        } else if arm == 307 {
            LogVerbosityLevel::parse(d, at)
        } else if arm == 308 {
            LogTags::parse(d, at)
        } else if arm == 309 {
            TestInt::parse(d, at)
        } else if arm == 310 {
            TestString::parse(d, at)
        } else if arm == 311 {
            TestBytes::parse(d, at)
        } else if arm == 312 {
            TestVectorInt::parse(d, at)
        } else {
            Self::parse_arm_27(arm, d, at)
        }
    }

    pub open spec fn parse_arm_27(arm: int, d: Doc, at: Seq<char>) -> Result<Doc, Fault> {
        if arm == 313 {
            TestVectorIntObject::parse(d, at)
        } else if arm == 314 {
            TestVectorString::parse(d, at)
        } else if arm == 315 {
            TestVectorStringObject::parse(d, at)
        } else {
            Err(Fault::TypeMismatch(at))
        }
    }

    /// Finds the arm that a discriminator belongs to.
    pub fn route_of(tag: &str) -> (arm: u16)
        ensures
            arm == Self::route(tag@),
            arm <= Self::ARMS,
    {
        let n = tag.unicode_len();
        if n == 2 {
            Self::route_of_2(tag)
        } else if n == 4 {
            Self::route_of_4(tag)
        } else if n == 5 {
            Self::route_of_5(tag)
        } else if n == 6 {
            Self::route_of_6(tag)
        } else if n == 7 {
            Self::route_of_7(tag)
        } else if n == 8 {
            Self::route_of_8(tag)
        } else if n == 9 {
            Self::route_of_9(tag)
        } else if n == 10 {
            Self::route_of_10(tag)
        } else if n == 11 {
            Self::route_of_11(tag)
        } else if n == 12 {
            Self::route_of_12(tag)
        } else if n == 13 {
            Self::route_of_13(tag)
        } else if n == 14 {
            Self::route_of_14(tag)
        } else if n == 15 {
            Self::route_of_15(tag)
        } else if n == 16 {
            Self::route_of_16(tag)
        } else if n == 17 {
            Self::route_of_17(tag)
        } else if n == 18 {
            Self::route_of_18(tag)
        } else if n == 19 {
            Self::route_of_19(tag)
        } else if n == 20 {
            Self::route_of_20(tag)
        } else if n == 21 {
            Self::route_of_21(tag)
        } else if n == 22 {
            Self::route_of_22(tag)
        } else if n == 23 {
            Self::route_of_23(tag)
        } else if n == 24 {
            Self::route_of_24(tag)
        } else if n == 25 {
            Self::route_of_25(tag)
        } else if n == 26 {
            Self::route_of_26(tag)
        } else if n == 27 {
            Self::route_of_27(tag)
        } else if n == 28 {
            Self::route_of_28(tag)
        } else if n == 29 {
            Self::route_of_29(tag)
        } else if n == 30 {
            Self::route_of_30(tag)
        } else if n == 31 {
            Self::route_of_31(tag)
        } else if n == 32 {
            Self::route_of_32(tag)
        } else if n == 33 {
            Self::route_of_33(tag)
        } else if n == 34 {
            Self::route_of_34(tag)
        } else if n == 35 {
            Self::route_of_35(tag)
        } else if n == 36 {
            Self::route_of_36(tag)
        } else if n == 37 {
            Self::route_of_37(tag)
        } else if n == 38 {
            Self::route_of_38(tag)
        } else if n == 39 {
            Self::route_of_39(tag)
        } else if n == 40 {
            Self::route_of_40(tag)
        } else if n == 41 {
            Self::route_of_41(tag)
        } else if n == 42 {
            Self::route_of_42(tag)
        } else if n == 43 {
            Self::route_of_43(tag)
        } else if n == 45 {
            Self::route_of_45(tag)
        } else if n == 46 {
            Self::route_of_46(tag)
        } else if n == 47 {
            Self::route_of_47(tag)
        } else {
            0
        }
    }

    fn route_of_2(tag: &str) -> (arm: u16)
        ensures
            arm == Self::route_2(tag@),
            arm <= Self::ARMS,
    {
        if same_text(tag, "ok") {
            2
        } else {
            0
        }
    }

    fn route_of_4(tag: &str) -> (arm: u16)
        ensures
            arm == Self::route_4(tag@),
            arm <= Self::ARMS,
    {
        if same_text(tag, "call") {
            152
        } else if same_text(tag, "chat") {
            75
        } else if same_text(tag, "date") {
            113
        } else if same_text(tag, "file") {
            17
        } else if same_text(tag, "game") {
            36
        } else if same_text(tag, "poll") {
            37
        } else if same_text(tag, "text") {
            221
        } else if same_text(tag, "user") {
            44
        } else {
            0
        }
    }

    fn route_of_5(tag: &str) -> (arm: u16)
        ensures
            arm == Self::route_5(tag@),
            arm <= Self::ARMS,
    {
        if same_text(tag, "audio") {
            26
        } else if same_text(tag, "chats") {
            76
        } else if same_text(tag, "count") {
            220
        } else if same_text(tag, "error") {
            1
        } else if same_text(tag, "photo") {
            28
        } else if same_text(tag, "proxy") {
            226
        } else if same_text(tag, "users") {
            48
        } else if same_text(tag, "venue") {
            35
        } else if same_text(tag, "video") {
            30
        } else {
            0
        }
    }

    fn route_of_6(tag: &str) -> (arm: u16)
        ensures
            arm == Self::route_6(tag@),
            arm <= Self::ARMS,
    {
        if same_text(tag, "callId") {
            149
        } else if same_text(tag, "emojis") {
            142
        } else if same_text(tag, "tMeUrl") {
            218
        } else {
            0
        }
    }

    fn route_of_7(tag: &str) -> (arm: u16)
        ensures
            arm == Self::route_7(tag@),
            arm <= Self::ARMS,
    {
        if same_text(tag, "address") {
            99
        } else if same_text(tag, "botInfo") {
            42
        } else if same_text(tag, "contact") {
            33
        } else if same_text(tag, "httpUrl") {
            156
        } else if same_text(tag, "invoice") {
            101
        } else if same_text(tag, "logTags") {
            308
        } else if same_text(tag, "message") {
            66
        } else if same_text(tag, "proxies") {
            227
        } else if same_text(tag, "seconds") {
            222
        } else if same_text(tag, "session") {
            196
        } else if same_text(tag, "sticker") {
            29
        } else if same_text(tag, "tMeUrls") {
            219
        } else if same_text(tag, "testInt") {
            309
        } else if same_text(tag, "updates") {
            305
        } else if same_text(tag, "webPage") {
            98
        } else {
            0
        }
    }

    fn route_of_8(tag: &str) -> (arm: u16)
        ensures
            arm == Self::route_8(tag@),
            arm <= Self::ARMS,
    {
        if same_text(tag, "document") {
            27
        } else if same_text(tag, "filePart") {
            203
        } else if same_text(tag, "hashtags") {
            181
        } else if same_text(tag, "location") {
            34
        } else if same_text(tag, "messages") {
            67
        } else if same_text(tag, "sessions") {
            197
        } else if same_text(tag, "stickers") {
            141
        } else {
            0
        }
    }

    fn route_of_9(tag: &str) -> (arm: u16)
        ensures
            arm == Self::route_9(tag@),
            arm <= Self::ARMS,
    {
        if same_text(tag, "animation") {
            25
        } else if same_text(tag, "chatEvent") {
            166
        } else if same_text(tag, "chatPhoto") {
            39
        } else if same_text(tag, "datedFile") {
            111
        } else if same_text(tag, "localFile") {
            15
        } else if same_text(tag, "orderInfo") {
            102
        } else if same_text(tag, "photoSize") {
            19
        } else if same_text(tag, "richTexts") {
            89
        } else if same_text(tag, "testBytes") {
            311
        } else if same_text(tag, "videoNote") {
            31
        } else if same_text(tag, "voiceNote") {
            32
        } else {
            0
        }
    }

    fn route_of_10(tag: &str) -> (arm: u16)
        ensures
            arm == Self::route_10(tag@),
            arm <= Self::ARMS,
    {
        if same_text(tag, "accountTtl") {
            195
        } else if same_text(tag, "animations") {
            154
        } else if same_text(tag, "background") {
            178
        } else if same_text(tag, "basicGroup") {
            57
        } else if same_text(tag, "botCommand") {
            41
        } else if same_text(tag, "chatEvents") {
            167
        } else if same_text(tag, "chatMember") {
            53
        } else if same_text(tag, "chatNearby") {
            77
        } else if same_text(tag, "pollOption") {
            23
        } else if same_text(tag, "remoteFile") {
            16
        } else if same_text(tag, "secretChat") {
            62
        } else if same_text(tag, "stickerSet") {
            143
        } else if same_text(tag, "supergroup") {
            59
        } else if same_text(tag, "testString") {
            310
        } else if same_text(tag, "textEntity") {
            7
        } else if same_text(tag, "updateCall") {
            280
        } else if same_text(tag, "updateFile") {
            277
        } else if same_text(tag, "updatePoll") {
            303
        } else if same_text(tag, "updateUser") {
            269
        } else {
            0
        }
    }

    fn route_of_11(tag: &str) -> (arm: u16)
        ensures
            arm == Self::route_11(tag@),
            arm <= Self::ARMS,
    {
        if same_text(tag, "backgrounds") {
            179
        } else if same_text(tag, "chatMembers") {
            54
        } else if same_text(tag, "chatsNearby") {
            78
        } else if same_text(tag, "inputFileId") {
            18
        } else if same_text(tag, "messageCall") {
            132
        } else if same_text(tag, "messageGame") {
            132
        } else if same_text(tag, "messagePoll") {
            132
        } else if same_text(tag, "messageText") {
            132
        } else if same_text(tag, "paymentForm") {
            107
        } else if same_text(tag, "richTextUrl") {
            89
        } else if same_text(tag, "stickerSets") {
            145
        } else if same_text(tag, "userTypeBot") {
            40
        } else {
            0
        }
    }

    fn route_of_12(tag: &str) -> (arm: u16)
        ensures
            arm == Self::route_12(tag@),
            arm <= Self::ARMS,
    {
        if same_text(tag, "callProtocol") {
            147
        } else if same_text(tag, "chatListMain") {
            74
        } else if same_text(tag, "chatLocation") {
            43
        } else if same_text(tag, "deepLinkInfo") {
            223
        } else if same_text(tag, "draftMessage") {
            72
        } else if same_text(tag, "fileTypeNone") {
            204
        } else if same_text(tag, "inputSticker") {
            228
        } else if same_text(tag, "maskPosition") {
            22
        } else if same_text(tag, "messageAudio") {
            132
        } else if same_text(tag, "messagePhoto") {
            132
        } else if same_text(tag, "messageVenue") {
            132
        } else if same_text(tag, "messageVideo") {
            132
        } else if same_text(tag, "notification") {
            187
        } else if same_text(tag, "pageBlockMap") {
            96
        } else if same_text(tag, "pollTypeQuiz") {
            24
        } else if same_text(tag, "profilePhoto") {
            38
        } else if same_text(tag, "richTextBold") {
            89
        } else if same_text(tag, "richTextIcon") {
            89
        } else if same_text(tag, "textEntities") {
            8
        } else if same_text(tag, "updateOption") {
            284
        } else if same_text(tag, "userFullInfo") {
            45
        } else {
            0
        }
    }

    fn route_of_13(tag: &str) -> (arm: u16)
        ensures
            arm == Self::route_13(tag@),
            arm <= Self::ARMS,
    {
        if same_text(tag, "fileTypeAudio") {
            204
        } else if same_text(tag, "fileTypePhoto") {
            204
        } else if same_text(tag, "fileTypeVideo") {
            204
        } else if same_text(tag, "formattedText") {
            9
        } else if same_text(tag, "foundMessages") {
            68
        } else if same_text(tag, "gameHighScore") {
            163
        } else if same_text(tag, "jsonValueNull") {
            191
        } else if same_text(tag, "logStreamFile") {
            306
        } else if same_text(tag, "maskPointChin") {
            21
        } else if same_text(tag, "maskPointEyes") {
            21
        } else if same_text(tag, "minithumbnail") {
            20
        } else if same_text(tag, "pageBlockList") {
            96
        } else if same_text(tag, "passwordState") {
            12
        } else if same_text(tag, "paymentResult") {
            109
        } else if same_text(tag, "proxyTypeHttp") {
            225
        } else if same_text(tag, "richTextFixed") {
            89
        } else if same_text(tag, "richTextPlain") {
            89
        } else if same_text(tag, "testVectorInt") {
            312
        } else if same_text(tag, "updateNewChat") {
            240
        } else {
            0
        }
    }

    fn route_of_14(tag: &str) -> (arm: u16)
        ensures
            arm == Self::route_14(tag@),
            arm <= Self::ARMS,
    {
        if same_text(tag, "callConnection") {
            148
        } else if same_text(tag, "callStateError") {
            150
        } else if same_text(tag, "callStateReady") {
            150
        } else if same_text(tag, "chatInviteLink") {
            79
        } else if same_text(tag, "chatTypeSecret") {
            73
        } else if same_text(tag, "fileTypeSecret") {
            204
        } else if same_text(tag, "fileTypeSecure") {
            204
        } else if same_text(tag, "gameHighScores") {
            164
        } else if same_text(tag, "inputFileLocal") {
            18
        } else if same_text(tag, "inputThumbnail") {
            134
        } else if same_text(tag, "jsonValueArray") {
            191
        } else if same_text(tag, "keyboardButton") {
            84
        } else if same_text(tag, "logStreamEmpty") {
            306
        } else if same_text(tag, "maskPointMouth") {
            21
        } else if same_text(tag, "messageContact") {
            132
        } else if same_text(tag, "messageInvoice") {
            132
        } else if same_text(tag, "messageSticker") {
            132
        } else if same_text(tag, "pageBlockAudio") {
            96
        } else if same_text(tag, "pageBlockCover") {
            96
        } else if same_text(tag, "pageBlockPhoto") {
            96
        } else if same_text(tag, "pageBlockTable") {
            96
        } else if same_text(tag, "pageBlockTitle") {
            96
        } else if same_text(tag, "pageBlockVideo") {
            96
        } else if same_text(tag, "paymentReceipt") {
            110
        } else if same_text(tag, "pushReceiverId") {
            175
        } else if same_text(tag, "richTextAnchor") {
            89
        } else if same_text(tag, "richTextItalic") {
            89
        } else if same_text(tag, "richTextMarked") {
            89
        } else if same_text(tag, "shippingOption") {
            103
        } else if same_text(tag, "stickerSetInfo") {
            144
        } else if same_text(tag, "tMeUrlTypeUser") {
            217
        } else if same_text(tag, "termsOfService") {
            10
        } else {
            0
        }
    }

    fn route_of_15(tag: &str) -> (arm: u16)
        ensures
            arm == Self::route_15(tag@),
            arm <= Self::ARMS,
    {
        if same_text(tag, "callProblemEcho") {
            151
        } else if same_text(tag, "chatListArchive") {
            74
        } else if same_text(tag, "chatPermissions") {
            51
        } else if same_text(tag, "chatTypePrivate") {
            73
        } else if same_text(tag, "fileTypeSticker") {
            204
        } else if same_text(tag, "fileTypeUnknown") {
            204
        } else if same_text(tag, "inputFileRemote") {
            18
        } else if same_text(tag, "jsonValueNumber") {
            191
        } else if same_text(tag, "jsonValueObject") {
            191
        } else if same_text(tag, "jsonValueString") {
            191
        } else if same_text(tag, "messageDocument") {
            132
        } else if same_text(tag, "messageLinkInfo") {
            202
        } else if same_text(tag, "messageLocation") {
            132
        } else if same_text(tag, "networkTypeNone") {
            210
        } else if same_text(tag, "networkTypeWiFi") {
            210
        } else if same_text(tag, "pageBlockAnchor") {
            96
        } else if same_text(tag, "pageBlockFooter") {
            96
        } else if same_text(tag, "pageBlockHeader") {
            96
        } else if same_text(tag, "pageBlockKicker") {
            96
        } else if same_text(tag, "personalDetails") {
            114
        } else if same_text(tag, "pollTypeRegular") {
            24
        } else if same_text(tag, "proxyTypeSocks5") {
            225
        } else if same_text(tag, "tdlibParameters") {
            3
        } else if same_text(tag, "updateChatOrder") {
            246
        } else if same_text(tag, "updateChatPhoto") {
            243
        } else if same_text(tag, "updateChatTitle") {
            242
        } else if same_text(tag, "userStatusEmpty") {
            140
        } else if same_text(tag, "userTypeDeleted") {
            40
        } else if same_text(tag, "userTypeRegular") {
            40
        } else if same_text(tag, "userTypeUnknown") {
            40
        } else {
            0
        }
    }

    fn route_of_16(tag: &str) -> (arm: u16)
        ensures
            arm == Self::route_16(tag@),
            arm <= Self::ARMS,
    {
        if same_text(tag, "callProblemNoise") {
            151
        } else if same_text(tag, "callStatePending") {
            150
        } else if same_text(tag, "chatActionCancel") {
            139
        } else if same_text(tag, "chatActionTyping") {
            139
        } else if same_text(tag, "connectedWebsite") {
            198
        } else if same_text(tag, "fileTypeDocument") {
            204
        } else if same_text(tag, "identityDocument") {
            115
        } else if same_text(tag, "importedContacts") {
            155
        } else if same_text(tag, "inputMessageGame") {
            137
        } else if same_text(tag, "inputMessagePoll") {
            137
        } else if same_text(tag, "inputMessageText") {
            137
        } else if same_text(tag, "jsonObjectMember") {
            190
        } else if same_text(tag, "jsonValueBoolean") {
            191
        } else if same_text(tag, "labeledPricePart") {
            100
        } else if same_text(tag, "languagePackInfo") {
            172
        } else if same_text(tag, "logStreamDefault") {
            306
        } else if same_text(tag, "loginUrlInfoOpen") {
            88
        } else if same_text(tag, "messageAnimation") {
            132
        } else if same_text(tag, "messageGameScore") {
            132
        } else if same_text(tag, "messageVideoNote") {
            132
        } else if same_text(tag, "messageVoiceNote") {
            132
        } else if same_text(tag, "networkTypeOther") {
            210
        } else if same_text(tag, "optionValueEmpty") {
            189
        } else if same_text(tag, "pageBlockCaption") {
            90
        } else if same_text(tag, "pageBlockCollage") {
            96
        } else if same_text(tag, "pageBlockDetails") {
            96
        } else if same_text(tag, "pageBlockDivider") {
            96
        } else if same_text(tag, "passportElements") {
            121
        } else if same_text(tag, "personalDocument") {
            117
        } else if same_text(tag, "proxyTypeMtproto") {
            225
        } else if same_text(tag, "savedCredentials") {
            104
        } else if same_text(tag, "testVectorString") {
            314
        } else if same_text(tag, "updateBasicGroup") {
            270
        } else if same_text(tag, "updateNewMessage") {
            230
        } else if same_text(tag, "updatePollAnswer") {
            304
        } else if same_text(tag, "updateSecretChat") {
            272
        } else if same_text(tag, "updateSupergroup") {
            271
        } else if same_text(tag, "updateUserStatus") {
            268
        } else if same_text(tag, "userProfilePhoto") {
            46
        } else if same_text(tag, "userStatusOnline") {
            140
        } else {
            0
        }
    }

    fn route_of_17(tag: &str) -> (arm: u16)
        ensures
            arm == Self::route_17(tag@),
            arm <= Self::ARMS,
    {
        if same_text(tag, "chatAdministrator") {
            49
        } else if same_text(tag, "connectedWebsites") {
            199
        } else if same_text(tag, "fileTypeAnimation") {
            204
        } else if same_text(tag, "fileTypeThumbnail") {
            204
        } else if same_text(tag, "fileTypeVideoNote") {
            204
        } else if same_text(tag, "fileTypeVoiceNote") {
            204
        } else if same_text(tag, "fileTypeWallpaper") {
            204
        } else if same_text(tag, "inputMessageAudio") {
            137
        } else if same_text(tag, "inputMessagePhoto") {
            137
        } else if same_text(tag, "inputMessageVenue") {
            137
        } else if same_text(tag, "inputMessageVideo") {
            137
        } else if same_text(tag, "logVerbosityLevel") {
            307
        } else if same_text(tag, "maskPointForehead") {
            21
        } else if same_text(tag, "messageChatSetTtl") {
            132
        } else if same_text(tag, "messagePinMessage") {
            132
        } else if same_text(tag, "networkStatistics") {
            212
        } else if same_text(tag, "networkTypeMobile") {
            210
        } else if same_text(tag, "notificationGroup") {
            188
        } else if same_text(tag, "optionValueString") {
            189
        } else if same_text(tag, "pageBlockChatLink") {
            96
        } else if same_text(tag, "pageBlockEmbedded") {
            96
        } else if same_text(tag, "pageBlockListItem") {
            91
        } else if same_text(tag, "pageBlockSubtitle") {
            96
        } else if same_text(tag, "publicMessageLink") {
            201
        } else if same_text(tag, "richTextSubscript") {
            89
        } else if same_text(tag, "richTextUnderline") {
            89
        } else if same_text(tag, "storageStatistics") {
            207
        } else if same_text(tag, "textEntityTypePre") {
            133
        } else if same_text(tag, "textEntityTypeUrl") {
            133
        } else if same_text(tag, "textParseModeHTML") {
            224
        } else if same_text(tag, "updateUsersNearby") {
            294
        } else if same_text(tag, "userProfilePhotos") {
            47
        } else if same_text(tag, "userStatusOffline") {
            140
        } else {
            0
        }
    }

    fn route_of_18(tag: &str) -> (arm: u16)
        ensures
            arm == Self::route_18(tag@),
            arm <= Self::ARMS,
    {
        if same_text(tag, "backgroundTypeFill") {
            177
        } else if same_text(tag, "basicGroupFullInfo") {
            58
        } else if same_text(tag, "callProblemDropped") {
            151
        } else if same_text(tag, "callStateDiscarded") {
            150
        } else if same_text(tag, "callStateHangingUp") {
            150
        } else if same_text(tag, "chatAdministrators") {
            50
        } else if same_text(tag, "chatInviteLinkInfo") {
            80
        } else if same_text(tag, "chatTypeBasicGroup") {
            73
        } else if same_text(tag, "chatTypeSupergroup") {
            73
        } else if same_text(tag, "databaseStatistics") {
            209
        } else if same_text(tag, "deviceTokenWebPush") {
            174
        } else if same_text(tag, "inlineQueryResults") {
            159
        } else if same_text(tag, "inputFileGenerated") {
            18
        } else if same_text(tag, "languagePackString") {
            170
        } else if same_text(tag, "messageForwardInfo") {
            64
        } else if same_text(tag, "messageUnsupported") {
            132
        } else if same_text(tag, "optionValueBoolean") {
            189
        } else if same_text(tag, "optionValueInteger") {
            189
        } else if same_text(tag, "pageBlockAnimation") {
            96
        } else if same_text(tag, "pageBlockParagraph") {
            96
        } else if same_text(tag, "pageBlockPullQuote") {
            96
        } else if same_text(tag, "pageBlockSlideshow") {
            96
        } else if same_text(tag, "pageBlockSubheader") {
            96
        } else if same_text(tag, "pageBlockTableCell") {
            94
        } else if same_text(tag, "pageBlockVoiceNote") {
            96
        } else if same_text(tag, "sendMessageOptions") {
            136
        } else if same_text(tag, "supergroupFullInfo") {
            60
        } else if same_text(tag, "textEntityTypeBold") {
            133
        } else if same_text(tag, "textEntityTypeCode") {
            133
        } else if same_text(tag, "updateChatChatList") {
            241
        } else if same_text(tag, "updateChatIsPinned") {
            247
        } else if same_text(tag, "updateMessageViews") {
            236
        } else if same_text(tag, "updateNotification") {
            262
        } else if same_text(tag, "updateUserFullInfo") {
            273
        } else if same_text(tag, "userStatusLastWeek") {
            140
        } else if same_text(tag, "userStatusRecently") {
            140
        } else if same_text(tag, "validatedOrderInfo") {
            108
        } else if same_text(tag, "webPageInstantView") {
            97
        } else {
            0
        }
    }

    fn route_of_19(tag: &str) -> (arm: u16)
        ensures
            arm == Self::route_19(tag@),
            arm <= Self::ARMS,
    {
        if same_text(tag, "backgroundFillSolid") {
            176
        } else if same_text(tag, "callbackQueryAnswer") {
            161
        } else if same_text(tag, "chatEventLogFilters") {
            168
        } else if same_text(tag, "chatEventMemberLeft") {
            165
        } else if same_text(tag, "customRequestResult") {
            162
        } else if same_text(tag, "inputCredentialsNew") {
            105
        } else if same_text(tag, "inputMessageContact") {
            137
        } else if same_text(tag, "inputMessageInvoice") {
            137
        } else if same_text(tag, "inputMessageSticker") {
            137
        } else if same_text(tag, "languagePackStrings") {
            171
        } else if same_text(tag, "messageExpiredPhoto") {
            132
        } else if same_text(tag, "messageExpiredVideo") {
            132
        } else if same_text(tag, "pageBlockAuthorDate") {
            96
        } else if same_text(tag, "pageBlockBlockQuote") {
            96
        } else if same_text(tag, "richTextPhoneNumber") {
            89
        } else if same_text(tag, "richTextSuperscript") {
            89
        } else if same_text(tag, "testVectorIntObject") {
            313
        } else if same_text(tag, "topChatCategoryBots") {
            216
        } else if same_text(tag, "updateChatActionBar") {
            257
        } else if same_text(tag, "updateChatReadInbox") {
            252
        } else if same_text(tag, "updateMessageEdited") {
            235
        } else if same_text(tag, "userStatusLastMonth") {
            140
        } else {
            0
        }
    }

    fn route_of_20(tag: &str) -> (arm: u16)
        ensures
            arm == Self::route_20(tag@),
            arm <= Self::ARMS,
    {
        if same_text(tag, "autoDownloadSettings") {
            213
        } else if same_text(tag, "chatEventPollStopped") {
            165
        } else if same_text(tag, "chatMemberStatusLeft") {
            52
        } else if same_text(tag, "chatReportReasonSpam") {
            200
        } else if same_text(tag, "connectionStateReady") {
            215
        } else if same_text(tag, "deviceTokenApplePush") {
            174
        } else if same_text(tag, "deviceTokenTizenPush") {
            174
        } else if same_text(tag, "encryptedCredentials") {
            128
        } else if same_text(tag, "fileTypeProfilePhoto") {
            204
        } else if same_text(tag, "inlineKeyboardButton") {
            86
        } else if same_text(tag, "inputBackgroundLocal") {
            180
        } else if same_text(tag, "inputMessageDocument") {
            137
        } else if same_text(tag, "inputMessageLocation") {
            137
        } else if same_text(tag, "messageChatUpgradeTo") {
            132
        } else if same_text(tag, "passportElementError") {
            123
        } else if same_text(tag, "recoveryEmailAddress") {
            13
        } else if same_text(tag, "richTextEmailAddress") {
            89
        } else if same_text(tag, "secretChatStateReady") {
            61
        } else if same_text(tag, "tMeUrlTypeChatInvite") {
            217
        } else if same_text(tag, "tMeUrlTypeStickerSet") {
            217
        } else if same_text(tag, "tMeUrlTypeSupergroup") {
            217
        } else if same_text(tag, "textEntityTypeItalic") {
            133
        } else if same_text(tag, "topChatCategoryCalls") {
            216
        } else if same_text(tag, "topChatCategoryUsers") {
            216
        } else if same_text(tag, "updateChatReadOutbox") {
            253
        } else if same_text(tag, "updateDeleteMessages") {
            266
        } else if same_text(tag, "updateMessageContent") {
            234
        } else if same_text(tag, "updateNewCustomEvent") {
            301
        } else if same_text(tag, "updateNewCustomQuery") {
            302
        } else if same_text(tag, "updateNewInlineQuery") {
            295
        } else if same_text(tag, "updateRecentStickers") {
            287
        } else if same_text(tag, "updateTermsOfService") {
            293
        } else if same_text(tag, "updateUserChatAction") {
            267
        } else {
            0
        }
    }

    fn route_of_21(tag: &str) -> (arm: u16)
        ensures
            arm == Self::route_21(tag@),
            arm <= Self::ARMS,
    {
        if same_text(tag, "backgroundTypePattern") {
            177
        } else if same_text(tag, "chatEventMemberJoined") {
            165
        } else if same_text(tag, "chatEventPhotoChanged") {
            165
        } else if same_text(tag, "chatEventTitleChanged") {
            165
        } else if same_text(tag, "chatMembersFilterBots") {
            55
        } else if same_text(tag, "deviceTokenSimplePush") {
            174
        } else if same_text(tag, "deviceTokenUbuntuPush") {
            174
        } else if same_text(tag, "inlineQueryResultGame") {
            158
        } else if same_text(tag, "inputBackgroundRemote") {
            180
        } else if same_text(tag, "inputCredentialsSaved") {
            105
        } else if same_text(tag, "inputIdentityDocument") {
            116
        } else if same_text(tag, "inputMessageAnimation") {
            137
        } else if same_text(tag, "inputMessageForwarded") {
            137
        } else if same_text(tag, "inputMessageVideoNote") {
            137
        } else if same_text(tag, "inputMessageVoiceNote") {
            137
        } else if same_text(tag, "inputPersonalDocument") {
            118
        } else if same_text(tag, "messageChatAddMembers") {
            132
        } else if same_text(tag, "messageChatJoinByLink") {
            132
        } else if same_text(tag, "pageBlockEmbeddedPost") {
            96
        } else if same_text(tag, "pageBlockPreformatted") {
            96
        } else if same_text(tag, "replyMarkupForceReply") {
            87
        } else if same_text(tag, "richTextStrikethrough") {
            89
        } else if same_text(tag, "secretChatStateClosed") {
            61
        } else if same_text(tag, "storageStatisticsFast") {
            208
        } else if same_text(tag, "textEntityTypeCashtag") {
            133
        } else if same_text(tag, "textEntityTypeHashtag") {
            133
        } else if same_text(tag, "textEntityTypeMention") {
            133
        } else if same_text(tag, "textEntityTypePreCode") {
            133
        } else if same_text(tag, "textEntityTypeTextUrl") {
            133
        } else if same_text(tag, "textParseModeMarkdown") {
            224
        } else if same_text(tag, "topChatCategoryGroups") {
            216
        } else if same_text(tag, "updateChatIsSponsored") {
            249
        } else if same_text(tag, "updateChatLastMessage") {
            245
        } else if same_text(tag, "updateChatPermissions") {
            244
        } else if same_text(tag, "updateChatReplyMarkup") {
            259
        } else if same_text(tag, "updateConnectionState") {
            292
        } else if same_text(tag, "updateSavedAnimations") {
            289
        } else if same_text(tag, "updateUnreadChatCount") {
            283
        } else {
            0
        }
    }

    fn route_of_22(tag: &str) -> (arm: u16)
        ensures
            arm == Self::route_22(tag@),
            arm <= Self::ARMS,
    {
        if same_text(tag, "authenticationCodeInfo") {
            5
        } else if same_text(tag, "backgroundFillGradient") {
            176
        } else if same_text(tag, "callDiscardReasonEmpty") {
            146
        } else if same_text(tag, "callProblemSilentLocal") {
            151
        } else if same_text(tag, "chatEventMemberInvited") {
            165
        } else if same_text(tag, "chatEventMessageEdited") {
            165
        } else if same_text(tag, "chatEventMessagePinned") {
            165
        } else if same_text(tag, "chatMemberStatusBanned") {
            52
        } else if same_text(tag, "chatMemberStatusMember") {
            52
        } else if same_text(tag, "chatReportReasonCustom") {
            200
        } else if same_text(tag, "deviceTokenWindowsPush") {
            174
        } else if same_text(tag, "inlineQueryResultAudio") {
            158
        } else if same_text(tag, "inlineQueryResultPhoto") {
            158
        } else if same_text(tag, "inlineQueryResultVenue") {
            158
        } else if same_text(tag, "inlineQueryResultVideo") {
            158
        } else if same_text(tag, "keyboardButtonTypeText") {
            83
        } else if same_text(tag, "localizationTargetInfo") {
            173
        } else if same_text(tag, "messageChatChangePhoto") {
            132
        } else if same_text(tag, "messageChatChangeTitle") {
            132
        } else if same_text(tag, "messageChatDeletePhoto") {
            132
        } else if same_text(tag, "messageChatUpgradeFrom") {
            132
        } else if same_text(tag, "messageScreenshotTaken") {
            132
        } else if same_text(tag, "passportElementAddress") {
            119
        } else if same_text(tag, "paymentsProviderStripe") {
            106
        } else if same_text(tag, "pushMessageContentGame") {
            184
        } else if same_text(tag, "pushMessageContentPoll") {
            184
        } else if same_text(tag, "pushMessageContentText") {
            184
        } else if same_text(tag, "secretChatStatePending") {
            61
        } else if same_text(tag, "temporaryPasswordState") {
            14
        } else if same_text(tag, "testVectorStringObject") {
            315
        } else if same_text(tag, "updateChatDraftMessage") {
            260
        } else if same_text(tag, "updateFavoriteStickers") {
            288
        } else if same_text(tag, "updateNewCallbackQuery") {
            297
        } else if same_text(tag, "updateNewShippingQuery") {
            299
        } else {
            0
        }
    }

    fn route_of_23(tag: &str) -> (arm: u16)
        ensures
            arm == Self::route_23(tag@),
            arm <= Self::ARMS,
    {
        if same_text(tag, "authorizationStateReady") {
            11
        } else if same_text(tag, "backgroundTypeWallpaper") {
            177
        } else if same_text(tag, "callDiscardReasonHungUp") {
            146
        } else if same_text(tag, "callDiscardReasonMissed") {
            146
        } else if same_text(tag, "callProblemSilentRemote") {
            151
        } else if same_text(tag, "callStateExchangingKeys") {
            150
        } else if same_text(tag, "chatActionBarAddContact") {
            82
        } else if same_text(tag, "chatActionBarReportSpam") {
            82
        } else if same_text(tag, "chatEventInvitesToggled") {
            165
        } else if same_text(tag, "chatEventMemberPromoted") {
            165
        } else if same_text(tag, "chatEventMessageDeleted") {
            165
        } else if same_text(tag, "chatMemberStatusCreator") {
            52
        } else if same_text(tag, "chatMembersFilterBanned") {
            55
        } else if same_text(tag, "connectionStateUpdating") {
            215
        } else if same_text(tag, "fileTypeSecretThumbnail") {
            204
        } else if same_text(tag, "messageChatDeleteMember") {
            132
        } else if same_text(tag, "messagePassportDataSent") {
            132
        } else if same_text(tag, "messageWebsiteConnected") {
            132
        } else if same_text(tag, "notificationTypeNewCall") {
            185
        } else if same_text(tag, "pageBlockRelatedArticle") {
            95
        } else if same_text(tag, "passportElementPassport") {
            119
        } else if same_text(tag, "passportRequiredElement") {
            125
        } else if same_text(tag, "passportSuitableElement") {
            124
        } else if same_text(tag, "pushMessageContentAudio") {
            184
        } else if same_text(tag, "pushMessageContentPhoto") {
            184
        } else if same_text(tag, "pushMessageContentVideo") {
            184
        } else if same_text(tag, "replyMarkupShowKeyboard") {
            87
        } else if same_text(tag, "searchMessagesFilterUrl") {
            138
        } else if same_text(tag, "storageStatisticsByChat") {
            206
        } else if same_text(tag, "textEntityTypeUnderline") {
            133
        } else if same_text(tag, "topChatCategoryChannels") {
            216
        } else if same_text(tag, "updateChatPinnedMessage") {
            258
        } else if same_text(tag, "updateMessageSendFailed") {
            233
        } else if same_text(tag, "updateNotificationGroup") {
            263
        } else if same_text(tag, "userPrivacySettingRules") {
            193
        } else {
            0
        }
    }

    fn route_of_24(tag: &str) -> (arm: u16)
        ensures
            arm == Self::route_24(tag@),
            arm <= Self::ARMS,
    {
        if same_text(tag, "authorizationStateClosed") {
            11
        } else if same_text(tag, "callProblemInterruptions") {
            151
        } else if same_text(tag, "callbackQueryPayloadData") {
            160
        } else if same_text(tag, "callbackQueryPayloadGame") {
            160
        } else if same_text(tag, "chatActionRecordingVideo") {
            139
        } else if same_text(tag, "chatActionUploadingPhoto") {
            139
        } else if same_text(tag, "chatActionUploadingVideo") {
            139
        } else if same_text(tag, "chatEventLocationChanged") {
            165
        } else if same_text(tag, "chatEventMessageUnpinned") {
            165
        } else if same_text(tag, "chatEventUsernameChanged") {
            165
        } else if same_text(tag, "chatMembersFilterMembers") {
            55
        } else if same_text(tag, "chatNotificationSettings") {
            70
        } else if same_text(tag, "chatReportReasonViolence") {
            200
        } else if same_text(tag, "deviceTokenApplePushVoIP") {
            174
        } else if same_text(tag, "deviceTokenMicrosoftPush") {
            174
        } else if same_text(tag, "encryptedPassportElement") {
            129
        } else if same_text(tag, "inlineQueryResultArticle") {
            158
        } else if same_text(tag, "inlineQueryResultContact") {
            158
        } else if same_text(tag, "inlineQueryResultSticker") {
            158
        } else if same_text(tag, "inputCredentialsApplePay") {
            105
        } else if same_text(tag, "messageContactRegistered") {
            132
        } else if same_text(tag, "messageForwardOriginUser") {
            63
        } else if same_text(tag, "messagePaymentSuccessful") {
            132
        } else if same_text(tag, "networkTypeMobileRoaming") {
            210
        } else if same_text(tag, "pageBlockRelatedArticles") {
            96
        } else if same_text(tag, "pushMessageContentHidden") {
            184
        } else if same_text(tag, "searchMessagesFilterCall") {
            138
        } else if same_text(tag, "textEntityTypeBotCommand") {
            133
        } else if same_text(tag, "updateAuthorizationState") {
            229
        } else if same_text(tag, "updateBasicGroupFullInfo") {
            274
        } else if same_text(tag, "updateFileGenerationStop") {
            279
        } else if same_text(tag, "updateMessageMentionRead") {
            238
        } else if same_text(tag, "updateSelectedBackground") {
            290
        } else if same_text(tag, "updateSupergroupFullInfo") {
            275
        } else if same_text(tag, "updateUnreadMessageCount") {
            282
        } else {
            0
        }
    }

    fn route_of_25(tag: &str) -> (arm: u16)
        ensures
            arm == Self::route_25(tag@),
            arm <= Self::ARMS,
    {
        if same_text(tag, "authenticationCodeTypeSms") {
            4
        } else if same_text(tag, "authorizationStateClosing") {
            11
        } else if same_text(tag, "callDiscardReasonDeclined") {
            146
        } else if same_text(tag, "chatActionChoosingContact") {
            139
        } else if same_text(tag, "chatEventMemberRestricted") {
            165
        } else if same_text(tag, "chatMembersFilterContacts") {
            55
        } else if same_text(tag, "chatReportReasonCopyright") {
            200
        } else if same_text(tag, "checkChatUsernameResultOk") {
            183
        } else if same_text(tag, "connectionStateConnecting") {
            215
        } else if same_text(tag, "deviceTokenBlackBerryPush") {
            174
        } else if same_text(tag, "inlineQueryResultDocument") {
            158
        } else if same_text(tag, "inlineQueryResultLocation") {
            158
        } else if same_text(tag, "inputPassportElementError") {
            131
        } else if same_text(tag, "messageSendingStateFailed") {
            65
        } else if same_text(tag, "passportAuthorizationForm") {
            126
        } else if same_text(tag, "publicChatTypeHasUsername") {
            81
        } else if same_text(tag, "pushMessageContentContact") {
            184
        } else if same_text(tag, "pushMessageContentInvoice") {
            184
        } else if same_text(tag, "pushMessageContentSticker") {
            184
        } else if same_text(tag, "replyMarkupInlineKeyboard") {
            87
        } else if same_text(tag, "replyMarkupRemoveKeyboard") {
            87
        } else if same_text(tag, "scopeNotificationSettings") {
            71
        } else if same_text(tag, "searchMessagesFilterAudio") {
            138
        } else if same_text(tag, "searchMessagesFilterEmpty") {
            138
        } else if same_text(tag, "searchMessagesFilterPhoto") {
            138
        } else if same_text(tag, "searchMessagesFilterVideo") {
            138
        } else if same_text(tag, "textEntityTypeMentionName") {
            133
        } else if same_text(tag, "textEntityTypePhoneNumber") {
            133
        } else if same_text(tag, "topChatCategoryInlineBots") {
            216
        } else if same_text(tag, "updateActiveNotifications") {
            264
        } else if same_text(tag, "updateFileGenerationStart") {
            278
        } else if same_text(tag, "updateLanguagePackStrings") {
            291
        } else if same_text(tag, "updateNewPreCheckoutQuery") {
            300
        } else if same_text(tag, "updateServiceNotification") {
            276
        } else if same_text(tag, "updateTrendingStickerSets") {
            286
        } else {
            0
        }
    }

    fn route_of_26(tag: &str) -> (arm: u16)
        ensures
            arm == Self::route_26(tag@),
            arm <= Self::ARMS,
    {
        if same_text(tag, "authenticationCodeTypeCall") {
            4
        } else if same_text(tag, "authorizationStateWaitCode") {
            11
        } else if same_text(tag, "callProblemDistortedSpeech") {
            151
        } else if same_text(tag, "chatActionChoosingLocation") {
            139
        } else if same_text(tag, "chatActionStartPlayingGame") {
            139
        } else if same_text(tag, "chatEventLinkedChatChanged") {
            165
        } else if same_text(tag, "chatEventStickerSetChanged") {
            165
        } else if same_text(tag, "chatMemberStatusRestricted") {
            52
        } else if same_text(tag, "chatReportReasonChildAbuse") {
            200
        } else if same_text(tag, "inlineQueryResultAnimation") {
            158
        } else if same_text(tag, "inlineQueryResultVoiceNote") {
            158
        } else if same_text(tag, "inputCredentialsAndroidPay") {
            105
        } else if same_text(tag, "inputInlineQueryResultGame") {
            157
        } else if same_text(tag, "messageCustomServiceAction") {
            132
        } else if same_text(tag, "messageSendingStatePending") {
            65
        } else if same_text(tag, "networkStatisticsEntryCall") {
            211
        } else if same_text(tag, "networkStatisticsEntryFile") {
            211
        } else if same_text(tag, "notificationGroupTypeCalls") {
            186
        } else if same_text(tag, "notificationTypeNewMessage") {
            185
        } else if same_text(tag, "passportElementPhoneNumber") {
            119
        } else if same_text(tag, "passportElementTypeAddress") {
            112
        } else if same_text(tag, "passportElementUtilityBill") {
            119
        } else if same_text(tag, "passportElementsWithErrors") {
            127
        } else if same_text(tag, "pushMessageContentDocument") {
            184
        } else if same_text(tag, "pushMessageContentLocation") {
            184
        } else if same_text(tag, "textEntityTypeEmailAddress") {
            133
        } else if same_text(tag, "updateChatIsMarkedAsUnread") {
            248
        } else if same_text(tag, "updateInstalledStickerSets") {
            285
        } else if same_text(tag, "updateMessageContentOpened") {
            237
        } else if same_text(tag, "updateMessageSendSucceeded") {
            232
        } else {
            0
        }
    }

    fn route_of_27(tag: &str) -> (arm: u16)
        ensures
            arm == Self::route_27(tag@),
            arm <= Self::ARMS,
    {
        if same_text(tag, "autoDownloadSettingsPresets") {
            214
        } else if same_text(tag, "chatActionBarReportAddBlock") {
            82
        } else if same_text(tag, "chatActionUploadingDocument") {
            139
        } else if same_text(tag, "chatEventDescriptionChanged") {
            165
        } else if same_text(tag, "chatEventPermissionsChanged") {
            165
        } else if same_text(tag, "chatMembersFilterRestricted") {
            55
        } else if same_text(tag, "chatReportReasonPornography") {
            200
        } else if same_text(tag, "inlineKeyboardButtonTypeBuy") {
            85
        } else if same_text(tag, "inlineKeyboardButtonTypeUrl") {
            85
        } else if same_text(tag, "inputInlineQueryResultAudio") {
            157
        } else if same_text(tag, "inputInlineQueryResultPhoto") {
            157
        } else if same_text(tag, "inputInlineQueryResultVenue") {
            157
        } else if same_text(tag, "inputInlineQueryResultVideo") {
            157
        } else if same_text(tag, "inputPassportElementAddress") {
            120
        } else if same_text(tag, "messageBasicGroupChatCreate") {
            132
        } else if same_text(tag, "messageForwardOriginChannel") {
            63
        } else if same_text(tag, "messagePassportDataReceived") {
            132
        } else if same_text(tag, "messagePaymentSuccessfulBot") {
            132
        } else if same_text(tag, "messageSupergroupChatCreate") {
            132
        } else if same_text(tag, "passportElementEmailAddress") {
            119
        } else if same_text(tag, "passportElementIdentityCard") {
            119
        } else if same_text(tag, "passportElementTypePassport") {
            112
        } else if same_text(tag, "pushMessageContentAnimation") {
            184
        } else if same_text(tag, "pushMessageContentGameScore") {
            184
        } else if same_text(tag, "pushMessageContentVideoNote") {
            184
        } else if same_text(tag, "pushMessageContentVoiceNote") {
            184
        } else if same_text(tag, "searchMessagesFilterMention") {
            138
        } else if same_text(tag, "storageStatisticsByFileType") {
            205
        } else if same_text(tag, "supergroupMembersFilterBots") {
            56
        } else if same_text(tag, "textEntityTypeStrikethrough") {
            133
        } else if same_text(tag, "topChatCategoryForwardChats") {
            216
        } else if same_text(tag, "updateChatOnlineMemberCount") {
            261
        } else if same_text(tag, "updateNewChosenInlineResult") {
            296
        } else {
            0
        }
    }

    fn route_of_28(tag: &str) -> (arm: u16)
        ensures
            arm == Self::route_28(tag@),
            arm <= Self::ARMS,
    {
        if same_text(tag, "authorizationStateLoggingOut") {
            11
        } else if same_text(tag, "canTransferOwnershipResultOk") {
            182
        } else if same_text(tag, "chatActionRecordingVideoNote") {
            139
        } else if same_text(tag, "chatActionRecordingVoiceNote") {
            139
        } else if same_text(tag, "chatActionUploadingVideoNote") {
            139
        } else if same_text(tag, "chatActionUploadingVoiceNote") {
            139
        } else if same_text(tag, "chatEventSignMessagesToggled") {
            165
        } else if same_text(tag, "deviceTokenMicrosoftPushVoIP") {
            174
        } else if same_text(tag, "inputPassportElementPassport") {
            120
        } else if same_text(tag, "passportElementBankStatement") {
            119
        } else if same_text(tag, "passportElementDriverLicense") {
            119
        } else if same_text(tag, "pushMessageContentMediaAlbum") {
            184
        } else if same_text(tag, "searchMessagesFilterDocument") {
            138
        } else if same_text(tag, "updateChatUnreadMentionCount") {
            254
        } else if same_text(tag, "updateNewInlineCallbackQuery") {
            298
        } else if same_text(tag, "userPrivacySettingAllowCalls") {
            194
        } else if same_text(tag, "userPrivacySettingShowStatus") {
            194
        } else {
            0
        }
    }

    fn route_of_29(tag: &str) -> (arm: u16)
        ensures
            arm == Self::route_29(tag@),
            arm <= Self::ARMS,
    {
        if same_text(tag, "callDiscardReasonDisconnected") {
            146
        } else if same_text(tag, "chatActionBarSharePhoneNumber") {
            82
        } else if same_text(tag, "chatEventSlowModeDelayChanged") {
            165
        } else if same_text(tag, "chatMemberStatusAdministrator") {
            52
        } else if same_text(tag, "inputInlineQueryResultArticle") {
            157
        } else if same_text(tag, "inputInlineQueryResultContact") {
            157
        } else if same_text(tag, "inputInlineQueryResultSticker") {
            157
        } else if same_text(tag, "keyboardButtonTypeRequestPoll") {
            83
        } else if same_text(tag, "notificationGroupTypeMentions") {
            186
        } else if same_text(tag, "notificationGroupTypeMessages") {
            186
        } else if same_text(tag, "notificationTypeNewSecretChat") {
            185
        } else if same_text(tag, "pageBlockVerticalAlignmentTop") {
            93
        } else if same_text(tag, "publicChatTypeIsLocationBased") {
            81
        } else if same_text(tag, "searchMessagesFilterAnimation") {
            138
        } else if same_text(tag, "searchMessagesFilterChatPhoto") {
            138
        } else if same_text(tag, "searchMessagesFilterVideoNote") {
            138
        } else if same_text(tag, "searchMessagesFilterVoiceNote") {
            138
        } else if same_text(tag, "supergroupMembersFilterBanned") {
            56
        } else if same_text(tag, "supergroupMembersFilterRecent") {
            56
        } else if same_text(tag, "supergroupMembersFilterSearch") {
            56
        } else if same_text(tag, "updateMessageSendAcknowledged") {
            231
        } else if same_text(tag, "updateUserPrivacySettingRules") {
            281
        } else {
            0
        }
    }

    fn route_of_30(tag: &str) -> (arm: u16)
        ensures
            arm == Self::route_30(tag@),
            arm <= Self::ARMS,
    {
        if same_text(tag, "authorizationStateWaitPassword") {
            11
        } else if same_text(tag, "inputInlineQueryResultDocument") {
            157
        } else if same_text(tag, "inputInlineQueryResultLocation") {
            157
        } else if same_text(tag, "languagePackStringValueDeleted") {
            169
        } else if same_text(tag, "messageForwardOriginHiddenUser") {
            63
        } else if same_text(tag, "notificationTypeNewPushMessage") {
            185
        } else if same_text(tag, "passportElementErrorSourceFile") {
            122
        } else if same_text(tag, "passportElementPersonalDetails") {
            119
        } else if same_text(tag, "passportElementRentalAgreement") {
            119
        } else if same_text(tag, "passportElementTypePhoneNumber") {
            112
        } else if same_text(tag, "passportElementTypeUtilityBill") {
            112
        } else if same_text(tag, "searchMessagesFilterMissedCall") {
            138
        } else if same_text(tag, "updateChatHasScheduledMessages") {
            250
        } else if same_text(tag, "updateChatNotificationSettings") {
            255
        } else if same_text(tag, "updateHavePendingNotifications") {
            265
        } else if same_text(tag, "userPrivacySettingRuleAllowAll") {
            192
        } else {
            0
        }
    }

    fn route_of_31(tag: &str) -> (arm: u16)
        ensures
            arm == Self::route_31(tag@),
            arm <= Self::ARMS,
    {
        if same_text(tag, "authenticationCodeTypeFlashCall") {
            4
        } else if same_text(tag, "chatMembersFilterAdministrators") {
            55
        } else if same_text(tag, "inputInlineQueryResultVoiceNote") {
            157
        } else if same_text(tag, "inputPassportElementPhoneNumber") {
            120
        } else if same_text(tag, "inputPassportElementUtilityBill") {
            120
        } else if same_text(tag, "languagePackStringValueOrdinary") {
            169
        } else if same_text(tag, "loginUrlInfoRequestConfirmation") {
            88
        } else if same_text(tag, "notificationGroupTypeSecretChat") {
            186
        } else if same_text(tag, "passportElementErrorSourceFiles") {
            122
        } else if same_text(tag, "passportElementInternalPassport") {
            119
        } else if same_text(tag, "passportElementTypeEmailAddress") {
            112
        } else if same_text(tag, "passportElementTypeIdentityCard") {
            112
        } else if same_text(tag, "supergroupMembersFilterContacts") {
            56
        } else if same_text(tag, "updateMessageLiveLocationViewed") {
            239
        } else if same_text(tag, "updateScopeNotificationSettings") {
            256
        } else {
            0
        }
    }

    fn route_of_32(tag: &str) -> (arm: u16)
        ensures
            arm == Self::route_32(tag@),
            arm <= Self::ARMS,
    {
        if same_text(tag, "connectionStateConnectingToProxy") {
            215
        } else if same_text(tag, "connectionStateWaitingForNetwork") {
            215
        } else if same_text(tag, "inlineKeyboardButtonTypeCallback") {
            85
        } else if same_text(tag, "inlineKeyboardButtonTypeLoginUrl") {
            85
        } else if same_text(tag, "inputPassportElementEmailAddress") {
            120
        } else if same_text(tag, "inputPassportElementIdentityCard") {
            120
        } else if same_text(tag, "messageSchedulingStateSendAtDate") {
            135
        } else if same_text(tag, "pageBlockHorizontalAlignmentLeft") {
            92
        } else if same_text(tag, "pageBlockVerticalAlignmentBottom") {
            93
        } else if same_text(tag, "pageBlockVerticalAlignmentMiddle") {
            93
        } else if same_text(tag, "passportElementErrorSourceSelfie") {
            122
        } else if same_text(tag, "passportElementTypeBankStatement") {
            112
        } else if same_text(tag, "passportElementTypeDriverLicense") {
            112
        } else if same_text(tag, "pushMessageContentChatAddMembers") {
            184
        } else if same_text(tag, "pushMessageContentChatJoinByLink") {
            184
        } else if same_text(tag, "userPrivacySettingRuleAllowUsers") {
            192
        } else {
            0
        }
    }

    fn route_of_33(tag: &str) -> (arm: u16)
        ensures
            arm == Self::route_33(tag@),
            arm <= Self::ARMS,
    {
        if same_text(tag, "authorizationStateWaitPhoneNumber") {
            11
        } else if same_text(tag, "chatReportReasonUnrelatedLocation") {
            200
        } else if same_text(tag, "deviceTokenFirebaseCloudMessaging") {
            174
        } else if same_text(tag, "inputInlineQueryResultAnimatedGif") {
            157
        } else if same_text(tag, "inputPassportElementBankStatement") {
            120
        } else if same_text(tag, "inputPassportElementDriverLicense") {
            120
        } else if same_text(tag, "keyboardButtonTypeRequestLocation") {
            83
        } else if same_text(tag, "languagePackStringValuePluralized") {
            169
        } else if same_text(tag, "pageBlockHorizontalAlignmentRight") {
            92
        } else if same_text(tag, "phoneNumberAuthenticationSettings") {
            153
        } else if same_text(tag, "pushMessageContentChatChangePhoto") {
            184
        } else if same_text(tag, "pushMessageContentChatChangeTitle") {
            184
        } else if same_text(tag, "pushMessageContentMessageForwards") {
            184
        } else if same_text(tag, "pushMessageContentScreenshotTaken") {
            184
        } else if same_text(tag, "searchMessagesFilterPhotoAndVideo") {
            138
        } else if same_text(tag, "searchMessagesFilterUnreadMention") {
            138
        } else if same_text(tag, "supergroupMembersFilterRestricted") {
            56
        } else if same_text(tag, "userPrivacySettingRuleRestrictAll") {
            192
        } else if same_text(tag, "userPrivacySettingShowPhoneNumber") {
            194
        } else {
            0
        }
    }

    fn route_of_34(tag: &str) -> (arm: u16)
        ensures
            arm == Self::route_34(tag@),
            arm <= Self::ARMS,
    {
        if same_text(tag, "authorizationStateWaitRegistration") {
            11
        } else if same_text(tag, "emailAddressAuthenticationCodeInfo") {
            6
        } else if same_text(tag, "pageBlockHorizontalAlignmentCenter") {
            92
        } else if same_text(tag, "passportElementTypePersonalDetails") {
            112
        } else if same_text(tag, "passportElementTypeRentalAgreement") {
            112
        } else if same_text(tag, "pushMessageContentChatDeleteMember") {
            184
        } else if same_text(tag, "userPrivacySettingAllowChatInvites") {
            194
        } else if same_text(tag, "userPrivacySettingShowProfilePhoto") {
            194
        } else {
            0
        }
    }

    fn route_of_35(tag: &str) -> (arm: u16)
        ensures
            arm == Self::route_35(tag@),
            arm <= Self::ARMS,
    {
        if same_text(tag, "authorizationStateWaitEncryptionKey") {
            11
        } else if same_text(tag, "inputInlineQueryResultAnimatedMpeg4") {
            157
        } else if same_text(tag, "inputPassportElementErrorSourceFile") {
            130
        } else if same_text(tag, "inputPassportElementPersonalDetails") {
            120
        } else if same_text(tag, "inputPassportElementRentalAgreement") {
            120
        } else if same_text(tag, "notificationSettingsScopeGroupChats") {
            69
        } else if same_text(tag, "passportElementErrorSourceDataField") {
            122
        } else if same_text(tag, "passportElementErrorSourceFrontSide") {
            122
        } else if same_text(tag, "passportElementPassportRegistration") {
            119
        } else if same_text(tag, "passportElementTypeInternalPassport") {
            112
        } else if same_text(tag, "pushMessageContentContactRegistered") {
            184
        } else if same_text(tag, "userPrivacySettingRuleAllowContacts") {
            192
        } else if same_text(tag, "userPrivacySettingRuleRestrictUsers") {
            192
        } else {
            0
        }
    }

    fn route_of_36(tag: &str) -> (arm: u16)
        ensures
            arm == Self::route_36(tag@),
            arm <= Self::ARMS,
    {
        if same_text(tag, "chatActionBarReportUnrelatedLocation") {
            82
        } else if same_text(tag, "inlineKeyboardButtonTypeCallbackGame") {
            85
        } else if same_text(tag, "inlineKeyboardButtonTypeSwitchInline") {
            85
        } else if same_text(tag, "inputPassportElementErrorSourceFiles") {
            130
        } else if same_text(tag, "inputPassportElementInternalPassport") {
            120
        } else if same_text(tag, "keyboardButtonTypeRequestPhoneNumber") {
            83
        } else if same_text(tag, "messageSchedulingStateSendWhenOnline") {
            135
        } else if same_text(tag, "passportElementTemporaryRegistration") {
            119
        } else if same_text(tag, "updateChatDefaultDisableNotification") {
            251
        } else {
            0
        }
    }

    fn route_of_37(tag: &str) -> (arm: u16)
        ensures
            arm == Self::route_37(tag@),
            arm <= Self::ARMS,
    {
        if same_text(tag, "authenticationCodeTypeTelegramMessage") {
            4
        } else if same_text(tag, "authorizationStateWaitTdlibParameters") {
            11
        } else if same_text(tag, "chatEventIsAllHistoryAvailableToggled") {
            165
        } else if same_text(tag, "inputPassportElementErrorSourceSelfie") {
            130
        } else if same_text(tag, "notificationSettingsScopeChannelChats") {
            69
        } else if same_text(tag, "notificationSettingsScopePrivateChats") {
            69
        } else if same_text(tag, "passportElementErrorSourceReverseSide") {
            122
        } else if same_text(tag, "passportElementErrorSourceUnspecified") {
            122
        } else if same_text(tag, "searchMessagesFilterVoiceAndVideoNote") {
            138
        } else if same_text(tag, "supergroupMembersFilterAdministrators") {
            56
        } else {
            0
        }
    }

    fn route_of_38(tag: &str) -> (arm: u16)
        ensures
            arm == Self::route_38(tag@),
            arm <= Self::ARMS,
    {
        if same_text(tag, "checkChatUsernameResultUsernameInvalid") {
            183
        } else if same_text(tag, "pushMessageContentBasicGroupChatCreate") {
            184
        } else if same_text(tag, "userPrivacySettingAllowPeerToPeerCalls") {
            194
        } else if same_text(tag, "userPrivacySettingRuleAllowChatMembers") {
            192
        } else if same_text(tag, "userPrivacySettingRuleRestrictContacts") {
            192
        } else {
            0
        }
    }

    fn route_of_39(tag: &str) -> (arm: u16)
        ensures
            arm == Self::route_39(tag@),
            arm <= Self::ARMS,
    {
        if same_text(tag, "checkChatUsernameResultUsernameOccupied") {
            183
        } else if same_text(tag, "passportElementTypePassportRegistration") {
            112
        } else {
            0
        }
    }

    fn route_of_40(tag: &str) -> (arm: u16)
        ensures
            arm == Self::route_40(tag@),
            arm <= Self::ARMS,
    {
        if same_text(tag, "canTransferOwnershipResultPasswordNeeded") {
            182
        } else if same_text(tag, "inputPassportElementErrorSourceDataField") {
            130
        } else if same_text(tag, "inputPassportElementErrorSourceFrontSide") {
            130
        } else if same_text(tag, "inputPassportElementPassportRegistration") {
            120
        } else if same_text(tag, "passportElementTypeTemporaryRegistration") {
            112
        } else {
            0
        }
    }

    fn route_of_41(tag: &str) -> (arm: u16)
        ensures
            arm == Self::route_41(tag@),
            arm <= Self::ARMS,
    {
        if same_text(tag, "canTransferOwnershipResultSessionTooFresh") {
            182
        } else if same_text(tag, "checkChatUsernameResultPublicChatsTooMuch") {
            183
        } else if same_text(tag, "inputPassportElementTemporaryRegistration") {
            120
        } else if same_text(tag, "passportElementErrorSourceTranslationFile") {
            122
        } else if same_text(tag, "userPrivacySettingRuleRestrictChatMembers") {
            192
        } else {
            0
        }
    }

    fn route_of_42(tag: &str) -> (arm: u16)
        ensures
            arm == Self::route_42(tag@),
            arm <= Self::ARMS,
    {
        if same_text(tag, "canTransferOwnershipResultPasswordTooFresh") {
            182
        } else if same_text(tag, "inputPassportElementErrorSourceReverseSide") {
            130
        } else if same_text(tag, "inputPassportElementErrorSourceUnspecified") {
            130
        } else if same_text(tag, "passportElementErrorSourceTranslationFiles") {
            122
        } else {
            0
        }
    }

    fn route_of_43(tag: &str) -> (arm: u16)
        ensures
            arm == Self::route_43(tag@),
            arm <= Self::ARMS,
    {
        if same_text(tag, "userPrivacySettingAllowFindingByPhoneNumber") {
            194
        } else {
            0
        }
    }

    fn route_of_45(tag: &str) -> (arm: u16)
        ensures
            arm == Self::route_45(tag@),
            arm <= Self::ARMS,
    {
        if same_text(tag, "authorizationStateWaitOtherDeviceConfirmation") {
            11
        } else if same_text(tag, "userPrivacySettingShowLinkInForwardedMessages") {
            194
        } else {
            0
        }
    }

    fn route_of_46(tag: &str) -> (arm: u16)
        ensures
            arm == Self::route_46(tag@),
            arm <= Self::ARMS,
    {
        if same_text(tag, "checkChatUsernameResultPublicGroupsUnavailable") {
            183
        } else if same_text(tag, "inputPassportElementErrorSourceTranslationFile") {
            130
        } else {
            0
        }
    }

    fn route_of_47(tag: &str) -> (arm: u16)
        ensures
            arm == Self::route_47(tag@),
            arm <= Self::ARMS,
    {
        if same_text(tag, "inputPassportElementErrorSourceTranslationFiles") {
            130
        } else {
            0
        }
    }

    fn decode_arm(arm: u16, j: &Json, at: &str) -> (r: Result<Self, DecodeError>)
        requires
            1 <= arm <= Self::ARMS,
        ensures
            match r {
                Ok(v) => Self::parse_arm(arm as int, j@, at@) == Ok::<Doc, Fault>(v.wire()),
                Err(e) => Self::parse_arm(arm as int, j@, at@) == Err::<Doc, Fault>(e@),
            },
    {
        Self::decode_arm_1(arm, j, at)
    }

    fn decode_arm_1(arm: u16, j: &Json, at: &str) -> (r: Result<Self, DecodeError>)
        requires
            1 <= arm <= Self::ARMS,
        ensures
            match r {
                Ok(v) => Self::parse_arm_1(arm as int, j@, at@) == Ok::<Doc, Fault>(v.wire()),
                Err(e) => Self::parse_arm_1(arm as int, j@, at@) == Err::<Doc, Fault>(e@),
            },
    {
        proof {
            reveal(<Response as Wire>::wire);
        }
        if arm == 1 {
            Ok(Self::Error(Error::decode(j, at)?))
        } else if arm == 2 {
            Ok(Self::Okay(Okay::decode(j, at)?))
        } else if arm == 3 {
            Ok(Self::TdlibParameters(TdlibParameters::decode(j, at)?))
        } else if arm == 4 {
            Ok(Self::AuthenticationCodeType(AuthenticationCodeType::decode(j, at)?))
        } else if arm == 5 {
            Ok(Self::AuthenticationCodeInfo(AuthenticationCodeInfo::decode(j, at)?))
        } else if arm == 6 {
            Ok(
                Self::EmailAddressAuthenticationCodeInfo(
                    EmailAddressAuthenticationCodeInfo::decode(j, at)?,
                ),
            )
        } else if arm == 7 {
            Ok(Self::TextEntity(TextEntity::decode(j, at)?))
        } else if arm == 8 {
            Ok(Self::TextEntities(TextEntities::decode(j, at)?))
        } else if arm == 9 {
            Ok(Self::FormattedText(FormattedText::decode(j, at)?))
        } else if arm == 10 {
            Ok(Self::TermsOfService(TermsOfService::decode(j, at)?))
        } else if arm == 11 {
            Ok(Self::AuthorizationState(AuthorizationState::decode(j, at)?))
        } else if arm == 12 {
            Ok(Self::PasswordState(PasswordState::decode(j, at)?))
        } else {
            Self::decode_arm_2(arm, j, at)
        }
    }

    fn decode_arm_2(arm: u16, j: &Json, at: &str) -> (r: Result<Self, DecodeError>)
        requires
            13 <= arm <= Self::ARMS,
        ensures
            match r {
                Ok(v) => Self::parse_arm_2(arm as int, j@, at@) == Ok::<Doc, Fault>(v.wire()),
                Err(e) => Self::parse_arm_2(arm as int, j@, at@) == Err::<Doc, Fault>(e@),
            },
    {
        proof {
            reveal(<Response as Wire>::wire);
        }
        if arm == 13 {
            Ok(Self::RecoveryEmailAddress(RecoveryEmailAddress::decode(j, at)?))
        } else if arm == 14 {
            Ok(Self::TemporaryPasswordState(TemporaryPasswordState::decode(j, at)?))
        } else if arm == 15 {
            Ok(Self::LocalFile(LocalFile::decode(j, at)?))
        } else if arm == 16 {
            Ok(Self::RemoteFile(RemoteFile::decode(j, at)?))
        } else if arm == 17 {
            Ok(Self::File(File::decode(j, at)?))
        } else if arm == 18 {
            Ok(Self::InputFile(InputFile::decode(j, at)?))
        } else if arm == 19 {
            Ok(Self::PhotoSize(PhotoSize::decode(j, at)?))
        } else if arm == 20 {
            Ok(Self::Minithumbnail(Minithumbnail::decode(j, at)?))
        } else if arm == 21 {
            Ok(Self::MaskPoint(MaskPoint::decode(j, at)?))
        } else if arm == 22 {
            Ok(Self::MaskPosition(MaskPosition::decode(j, at)?))
        } else if arm == 23 {
            Ok(Self::PollOption(PollOption::decode(j, at)?))
        } else if arm == 24 {
            Ok(Self::PollType(PollType::decode(j, at)?))
        } else {
            Self::decode_arm_3(arm, j, at)
        }
    }

    fn decode_arm_3(arm: u16, j: &Json, at: &str) -> (r: Result<Self, DecodeError>)
        requires
            25 <= arm <= Self::ARMS,
        ensures
            match r {
                Ok(v) => Self::parse_arm_3(arm as int, j@, at@) == Ok::<Doc, Fault>(v.wire()),
                Err(e) => Self::parse_arm_3(arm as int, j@, at@) == Err::<Doc, Fault>(e@),
            },
    {
        proof {
            reveal(<Response as Wire>::wire);
        }
        if arm == 25 {
            Ok(Self::Animation(Animation::decode(j, at)?))
        } else if arm == 26 {
            Ok(Self::Audio(Audio::decode(j, at)?))
        } else if arm == 27 {
            Ok(Self::Document(Document::decode(j, at)?))
        } else if arm == 28 {
            Ok(Self::Photo(Photo::decode(j, at)?))
        } else if arm == 29 {
            Ok(Self::Sticker(Sticker::decode(j, at)?))
        } else if arm == 30 {
            Ok(Self::Video(Video::decode(j, at)?))
        } else if arm == 31 {
            Ok(Self::VideoNote(VideoNote::decode(j, at)?))
        } else if arm == 32 {
            Ok(Self::VoiceNote(VoiceNote::decode(j, at)?))
        } else if arm == 33 {
            Ok(Self::Contact(Contact::decode(j, at)?))
        } else if arm == 34 {
            Ok(Self::Location(Location::decode(j, at)?))
        } else if arm == 35 {
            Ok(Self::Venue(Venue::decode(j, at)?))
        } else if arm == 36 {
            Ok(Self::Game(Game::decode(j, at)?))
        } else {
            Self::decode_arm_4(arm, j, at)
        }
    }

    fn decode_arm_4(arm: u16, j: &Json, at: &str) -> (r: Result<Self, DecodeError>)
        requires
            37 <= arm <= Self::ARMS,
        ensures
            match r {
                Ok(v) => Self::parse_arm_4(arm as int, j@, at@) == Ok::<Doc, Fault>(v.wire()),
                Err(e) => Self::parse_arm_4(arm as int, j@, at@) == Err::<Doc, Fault>(e@),
            },
    {
        proof {
            reveal(<Response as Wire>::wire);
        }
        if arm == 37 {
            Ok(Self::Poll(Poll::decode(j, at)?))
        } else if arm == 38 {
            Ok(Self::ProfilePhoto(ProfilePhoto::decode(j, at)?))
        } else if arm == 39 {
            Ok(Self::ChatPhoto(ChatPhoto::decode(j, at)?))
        } else if arm == 40 {
            Ok(Self::UserType(UserType::decode(j, at)?))
        } else if arm == 41 {
            Ok(Self::BotCommand(BotCommand::decode(j, at)?))
        } else if arm == 42 {
            Ok(Self::BotInfo(BotInfo::decode(j, at)?))
        } else if arm == 43 {
            Ok(Self::ChatLocation(ChatLocation::decode(j, at)?))
        } else if arm == 44 {
            Ok(Self::User(User::decode(j, at)?))
        } else if arm == 45 {
            Ok(Self::UserFullInfo(UserFullInfo::decode(j, at)?))
        } else if arm == 46 {
            Ok(Self::UserProfilePhoto(UserProfilePhoto::decode(j, at)?))
        } else if arm == 47 {
            Ok(Self::UserProfilePhotos(UserProfilePhotos::decode(j, at)?))
        } else if arm == 48 {
            Ok(Self::Users(Users::decode(j, at)?))
        } else {
            Self::decode_arm_5(arm, j, at)
        }
    }

    fn decode_arm_5(arm: u16, j: &Json, at: &str) -> (r: Result<Self, DecodeError>)
        requires
            49 <= arm <= Self::ARMS,
        ensures
            match r {
                Ok(v) => Self::parse_arm_5(arm as int, j@, at@) == Ok::<Doc, Fault>(v.wire()),
                Err(e) => Self::parse_arm_5(arm as int, j@, at@) == Err::<Doc, Fault>(e@),
            },
    {
        proof {
            reveal(<Response as Wire>::wire);
        }
        if arm == 49 {
            Ok(Self::ChatAdministrator(ChatAdministrator::decode(j, at)?))
        } else if arm == 50 {
            Ok(Self::ChatAdministrators(ChatAdministrators::decode(j, at)?))
        } else if arm == 51 {
            Ok(Self::ChatPermissions(ChatPermissions::decode(j, at)?))
        } else if arm == 52 {
            Ok(Self::ChatMemberStatus(ChatMemberStatus::decode(j, at)?))
        } else if arm == 53 {
            Ok(Self::ChatMember(ChatMember::decode(j, at)?))
        } else if arm == 54 {
            Ok(Self::ChatMembers(ChatMembers::decode(j, at)?))
        } else if arm == 55 {
            Ok(Self::ChatMembersFilter(ChatMembersFilter::decode(j, at)?))
        } else if arm == 56 {
            Ok(Self::SupergroupMembersFilter(SupergroupMembersFilter::decode(j, at)?))
        } else if arm == 57 {
            Ok(Self::BasicGroup(BasicGroup::decode(j, at)?))
        } else if arm == 58 {
            Ok(Self::BasicGroupFullInfo(BasicGroupFullInfo::decode(j, at)?))
        } else if arm == 59 {
            Ok(Self::Supergroup(Supergroup::decode(j, at)?))
        } else if arm == 60 {
            Ok(Self::SupergroupFullInfo(SupergroupFullInfo::decode(j, at)?))
        } else {
            Self::decode_arm_6(arm, j, at)
        }
    }

    fn decode_arm_6(arm: u16, j: &Json, at: &str) -> (r: Result<Self, DecodeError>)
        requires
            61 <= arm <= Self::ARMS,
        ensures
            match r {
                Ok(v) => Self::parse_arm_6(arm as int, j@, at@) == Ok::<Doc, Fault>(v.wire()),
                Err(e) => Self::parse_arm_6(arm as int, j@, at@) == Err::<Doc, Fault>(e@),
            },
    {
        proof {
            reveal(<Response as Wire>::wire);
        }
        if arm == 61 {
            Ok(Self::SecretChatState(SecretChatState::decode(j, at)?))
        } else if arm == 62 {
            Ok(Self::SecretChat(SecretChat::decode(j, at)?))
        } else if arm == 63 {
            Ok(Self::MessageForwardOrigin(MessageForwardOrigin::decode(j, at)?))
        } else if arm == 64 {
            Ok(Self::MessageForwardInfo(MessageForwardInfo::decode(j, at)?))
        } else if arm == 65 {
            Ok(Self::MessageSendingState(MessageSendingState::decode(j, at)?))
        } else if arm == 66 {
            Ok(Self::Message(Message::decode(j, at)?))
        } else if arm == 67 {
            Ok(Self::Messages(Messages::decode(j, at)?))
        } else if arm == 68 {
            Ok(Self::FoundMessages(FoundMessages::decode(j, at)?))
        } else if arm == 69 {
            Ok(Self::NotificationSettingsScope(NotificationSettingsScope::decode(j, at)?))
        } else if arm == 70 {
            Ok(Self::ChatNotificationSettings(ChatNotificationSettings::decode(j, at)?))
        } else if arm == 71 {
            Ok(Self::ScopeNotificationSettings(ScopeNotificationSettings::decode(j, at)?))
        } else if arm == 72 {
            Ok(Self::DraftMessage(DraftMessage::decode(j, at)?))
        } else {
            Self::decode_arm_7(arm, j, at)
        }
    }

    fn decode_arm_7(arm: u16, j: &Json, at: &str) -> (r: Result<Self, DecodeError>)
        requires
            73 <= arm <= Self::ARMS,
        ensures
            match r {
                Ok(v) => Self::parse_arm_7(arm as int, j@, at@) == Ok::<Doc, Fault>(v.wire()),
                Err(e) => Self::parse_arm_7(arm as int, j@, at@) == Err::<Doc, Fault>(e@),
            },
    {
        proof {
            reveal(<Response as Wire>::wire);
        }
        if arm == 73 {
            Ok(Self::ChatType(ChatType::decode(j, at)?))
        } else if arm == 74 {
            Ok(Self::ChatList(ChatList::decode(j, at)?))
        } else if arm == 75 {
            Ok(Self::Chat(Chat::decode(j, at)?))
        } else if arm == 76 {
            Ok(Self::Chats(Chats::decode(j, at)?))
        } else if arm == 77 {
            Ok(Self::ChatNearby(ChatNearby::decode(j, at)?))
        } else if arm == 78 {
            Ok(Self::ChatsNearby(ChatsNearby::decode(j, at)?))
        } else if arm == 79 {
            Ok(Self::ChatInviteLink(ChatInviteLink::decode(j, at)?))
        } else if arm == 80 {
            Ok(Self::ChatInviteLinkInfo(ChatInviteLinkInfo::decode(j, at)?))
        } else if arm == 81 {
            Ok(Self::PublicChatType(PublicChatType::decode(j, at)?))
        } else if arm == 82 {
            Ok(Self::ChatActionBar(ChatActionBar::decode(j, at)?))
        } else if arm == 83 {
            Ok(Self::KeyboardButtonType(KeyboardButtonType::decode(j, at)?))
        } else if arm == 84 {
            Ok(Self::KeyboardButton(KeyboardButton::decode(j, at)?))
        } else {
            Self::decode_arm_8(arm, j, at)
        }
    }

    fn decode_arm_8(arm: u16, j: &Json, at: &str) -> (r: Result<Self, DecodeError>)
        requires
            85 <= arm <= Self::ARMS,
        ensures
            match r {
                Ok(v) => Self::parse_arm_8(arm as int, j@, at@) == Ok::<Doc, Fault>(v.wire()),
                Err(e) => Self::parse_arm_8(arm as int, j@, at@) == Err::<Doc, Fault>(e@),
            },
    {
        proof {
            reveal(<Response as Wire>::wire);
        }
        if arm == 85 {
            Ok(Self::InlineKeyboardButtonType(InlineKeyboardButtonType::decode(j, at)?))
        } else if arm == 86 {
            Ok(Self::InlineKeyboardButton(InlineKeyboardButton::decode(j, at)?))
        } else if arm == 87 {
            Ok(Self::ReplyMarkup(ReplyMarkup::decode(j, at)?))
        } else if arm == 88 {
            Ok(Self::LoginUrlInfo(LoginUrlInfo::decode(j, at)?))
        } else if arm == 89 {
            Ok(Self::RichText(RichText::decode(j, at)?))
        } else if arm == 90 {
            Ok(Self::PageBlockCaption(PageBlockCaption::decode(j, at)?))
        } else if arm == 91 {
            Ok(Self::PageBlockListItem(PageBlockListItem::decode(j, at)?))
        } else if arm == 92 {
            Ok(Self::PageBlockHorizontalAlignment(PageBlockHorizontalAlignment::decode(j, at)?))
        } else if arm == 93 {
            Ok(Self::PageBlockVerticalAlignment(PageBlockVerticalAlignment::decode(j, at)?))
        } else if arm == 94 {
            Ok(Self::PageBlockTableCell(PageBlockTableCell::decode(j, at)?))
        } else if arm == 95 {
            Ok(Self::PageBlockRelatedArticle(PageBlockRelatedArticle::decode(j, at)?))
        } else if arm == 96 {
            Ok(Self::PageBlock(PageBlock::decode(j, at)?))
        } else {
            Self::decode_arm_9(arm, j, at)
        }
    }

    fn decode_arm_9(arm: u16, j: &Json, at: &str) -> (r: Result<Self, DecodeError>)
        requires
            97 <= arm <= Self::ARMS,
        ensures
            match r {
                Ok(v) => Self::parse_arm_9(arm as int, j@, at@) == Ok::<Doc, Fault>(v.wire()),
                Err(e) => Self::parse_arm_9(arm as int, j@, at@) == Err::<Doc, Fault>(e@),
            },
    {
        proof {
            reveal(<Response as Wire>::wire);
        }
        if arm == 97 {
            Ok(Self::WebPageInstantView(WebPageInstantView::decode(j, at)?))
        } else if arm == 98 {
            Ok(Self::WebPage(WebPage::decode(j, at)?))
        } else if arm == 99 {
            Ok(Self::Address(Address::decode(j, at)?))
        } else if arm == 100 {
            Ok(Self::LabeledPricePart(LabeledPricePart::decode(j, at)?))
        } else if arm == 101 {
            Ok(Self::Invoice(Invoice::decode(j, at)?))
        } else if arm == 102 {
            Ok(Self::OrderInfo(OrderInfo::decode(j, at)?))
        } else if arm == 103 {
            Ok(Self::ShippingOption(ShippingOption::decode(j, at)?))
        } else if arm == 104 {
            Ok(Self::SavedCredentials(SavedCredentials::decode(j, at)?))
        } else if arm == 105 {
            Ok(Self::InputCredentials(InputCredentials::decode(j, at)?))
        } else if arm == 106 {
            Ok(Self::PaymentsProviderStripe(PaymentsProviderStripe::decode(j, at)?))
        } else if arm == 107 {
            Ok(Self::PaymentForm(PaymentForm::decode(j, at)?))
        } else if arm == 108 {
            Ok(Self::ValidatedOrderInfo(ValidatedOrderInfo::decode(j, at)?))
        } else {
            Self::decode_arm_10(arm, j, at)
        }
    }

    fn decode_arm_10(arm: u16, j: &Json, at: &str) -> (r: Result<Self, DecodeError>)
        requires
            109 <= arm <= Self::ARMS,
        ensures
            match r {
                Ok(v) => Self::parse_arm_10(arm as int, j@, at@) == Ok::<Doc, Fault>(v.wire()),
                Err(e) => Self::parse_arm_10(arm as int, j@, at@) == Err::<Doc, Fault>(e@),
            },
    {
        proof {
            reveal(<Response as Wire>::wire);
        }
        if arm == 109 {
            Ok(Self::PaymentResult(PaymentResult::decode(j, at)?))
        } else if arm == 110 {
            Ok(Self::PaymentReceipt(PaymentReceipt::decode(j, at)?))
        } else if arm == 111 {
            Ok(Self::DatedFile(DatedFile::decode(j, at)?))
        } else if arm == 112 {
            Ok(Self::PassportElementType(PassportElementType::decode(j, at)?))
        } else if arm == 113 {
            Ok(Self::Date(Date::decode(j, at)?))
        } else if arm == 114 {
            Ok(Self::PersonalDetails(PersonalDetails::decode(j, at)?))
        } else if arm == 115 {
            Ok(Self::IdentityDocument(IdentityDocument::decode(j, at)?))
        } else if arm == 116 {
            Ok(Self::InputIdentityDocument(InputIdentityDocument::decode(j, at)?))
        } else if arm == 117 {
            Ok(Self::PersonalDocument(PersonalDocument::decode(j, at)?))
        } else if arm == 118 {
            Ok(Self::InputPersonalDocument(InputPersonalDocument::decode(j, at)?))
        } else if arm == 119 {
            Ok(Self::PassportElement(PassportElement::decode(j, at)?))
        } else if arm == 120 {
            Ok(Self::InputPassportElement(InputPassportElement::decode(j, at)?))
        } else {
            Self::decode_arm_11(arm, j, at)
        }
    }

    fn decode_arm_11(arm: u16, j: &Json, at: &str) -> (r: Result<Self, DecodeError>)
        requires
            121 <= arm <= Self::ARMS,
        ensures
            match r {
                Ok(v) => Self::parse_arm_11(arm as int, j@, at@) == Ok::<Doc, Fault>(v.wire()),
                Err(e) => Self::parse_arm_11(arm as int, j@, at@) == Err::<Doc, Fault>(e@),
            },
    {
        proof {
            reveal(<Response as Wire>::wire);
        }
        if arm == 121 {
            Ok(Self::PassportElements(PassportElements::decode(j, at)?))
        } else if arm == 122 {
            Ok(Self::PassportElementErrorSource(PassportElementErrorSource::decode(j, at)?))
        } else if arm == 123 {
            Ok(Self::PassportElementError(PassportElementError::decode(j, at)?))
        } else if arm == 124 {
            Ok(Self::PassportSuitableElement(PassportSuitableElement::decode(j, at)?))
        } else if arm == 125 {
            Ok(Self::PassportRequiredElement(PassportRequiredElement::decode(j, at)?))
        } else if arm == 126 {
            Ok(Self::PassportAuthorizationForm(PassportAuthorizationForm::decode(j, at)?))
        } else if arm == 127 {
            Ok(Self::PassportElementsWithErrors(PassportElementsWithErrors::decode(j, at)?))
        } else if arm == 128 {
            Ok(Self::EncryptedCredentials(EncryptedCredentials::decode(j, at)?))
        } else if arm == 129 {
            Ok(Self::EncryptedPassportElement(EncryptedPassportElement::decode(j, at)?))
        } else if arm == 130 {
            Ok(
                Self::InputPassportElementErrorSource(
                    InputPassportElementErrorSource::decode(j, at)?,
                ),
            )
        } else if arm == 131 {
            Ok(Self::InputPassportElementError(InputPassportElementError::decode(j, at)?))
        } else if arm == 132 {
            Ok(Self::MessageContent(MessageContent::decode(j, at)?))
        } else {
            Self::decode_arm_12(arm, j, at)
        }
    }

    fn decode_arm_12(arm: u16, j: &Json, at: &str) -> (r: Result<Self, DecodeError>)
        requires
            133 <= arm <= Self::ARMS,
        ensures
            match r {
                Ok(v) => Self::parse_arm_12(arm as int, j@, at@) == Ok::<Doc, Fault>(v.wire()),
                Err(e) => Self::parse_arm_12(arm as int, j@, at@) == Err::<Doc, Fault>(e@),
            },
    {
        proof {
            reveal(<Response as Wire>::wire);
        }
        if arm == 133 {
            Ok(Self::TextEntityType(TextEntityType::decode(j, at)?))
        } else if arm == 134 {
            Ok(Self::InputThumbnail(InputThumbnail::decode(j, at)?))
        } else if arm == 135 {
            Ok(Self::MessageSchedulingState(MessageSchedulingState::decode(j, at)?))
        } else if arm == 136 {
            Ok(Self::SendMessageOptions(SendMessageOptions::decode(j, at)?))
        } else if arm == 137 {
            Ok(Self::InputMessageContent(InputMessageContent::decode(j, at)?))
        } else if arm == 138 {
            Ok(Self::SearchMessagesFilter(SearchMessagesFilter::decode(j, at)?))
        } else if arm == 139 {
            Ok(Self::ChatAction(ChatAction::decode(j, at)?))
        } else if arm == 140 {
            Ok(Self::UserStatus(UserStatus::decode(j, at)?))
        } else if arm == 141 {
            Ok(Self::Stickers(Stickers::decode(j, at)?))
        } else if arm == 142 {
            Ok(Self::Emojis(Emojis::decode(j, at)?))
        } else if arm == 143 {
            Ok(Self::StickerSet(StickerSet::decode(j, at)?))
        } else if arm == 144 {
            Ok(Self::StickerSetInfo(StickerSetInfo::decode(j, at)?))
        } else {
            Self::decode_arm_13(arm, j, at)
        }
    }

    fn decode_arm_13(arm: u16, j: &Json, at: &str) -> (r: Result<Self, DecodeError>)
        requires
            145 <= arm <= Self::ARMS,
        ensures
            match r {
                Ok(v) => Self::parse_arm_13(arm as int, j@, at@) == Ok::<Doc, Fault>(v.wire()),
                Err(e) => Self::parse_arm_13(arm as int, j@, at@) == Err::<Doc, Fault>(e@),
            },
    {
        proof {
            reveal(<Response as Wire>::wire);
        }
        if arm == 145 {
            Ok(Self::StickerSets(StickerSets::decode(j, at)?))
        } else if arm == 146 {
            Ok(Self::CallDiscardReason(CallDiscardReason::decode(j, at)?))
        } else if arm == 147 {
            Ok(Self::CallProtocol(CallProtocol::decode(j, at)?))
        } else if arm == 148 {
            Ok(Self::CallConnection(CallConnection::decode(j, at)?))
        } else if arm == 149 {
            Ok(Self::CallId(CallId::decode(j, at)?))
        } else if arm == 150 {
            Ok(Self::CallState(CallState::decode(j, at)?))
        } else if arm == 151 {
            Ok(Self::CallProblem(CallProblem::decode(j, at)?))
        } else if arm == 152 {
            Ok(Self::Call(Call::decode(j, at)?))
        } else if arm == 153 {
            Ok(
                Self::PhoneNumberAuthenticationSettings(
                    PhoneNumberAuthenticationSettings::decode(j, at)?,
                ),
            )
        } else if arm == 154 {
            Ok(Self::Animations(Animations::decode(j, at)?))
        } else if arm == 155 {
            Ok(Self::ImportedContacts(ImportedContacts::decode(j, at)?))
        } else if arm == 156 {
            Ok(Self::HttpUrl(HttpUrl::decode(j, at)?))
        } else {
            Self::decode_arm_14(arm, j, at)
        }
    }

    fn decode_arm_14(arm: u16, j: &Json, at: &str) -> (r: Result<Self, DecodeError>)
        requires
            157 <= arm <= Self::ARMS,
        ensures
            match r {
                Ok(v) => Self::parse_arm_14(arm as int, j@, at@) == Ok::<Doc, Fault>(v.wire()),
                Err(e) => Self::parse_arm_14(arm as int, j@, at@) == Err::<Doc, Fault>(e@),
            },
    {
        proof {
            reveal(<Response as Wire>::wire);
        }
        if arm == 157 {
            Ok(Self::InputInlineQueryResult(InputInlineQueryResult::decode(j, at)?))
        } else if arm == 158 {
            Ok(Self::InlineQueryResult(InlineQueryResult::decode(j, at)?))
        } else if arm == 159 {
            Ok(Self::InlineQueryResults(InlineQueryResults::decode(j, at)?))
        } else if arm == 160 {
            Ok(Self::CallbackQueryPayload(CallbackQueryPayload::decode(j, at)?))
        } else if arm == 161 {
            Ok(Self::CallbackQueryAnswer(CallbackQueryAnswer::decode(j, at)?))
        } else if arm == 162 {
            Ok(Self::CustomRequestResult(CustomRequestResult::decode(j, at)?))
        } else if arm == 163 {
            Ok(Self::GameHighScore(GameHighScore::decode(j, at)?))
        } else if arm == 164 {
            Ok(Self::GameHighScores(GameHighScores::decode(j, at)?))
        } else if arm == 165 {
            Ok(Self::ChatEventAction(ChatEventAction::decode(j, at)?))
        } else if arm == 166 {
            Ok(Self::ChatEvent(ChatEvent::decode(j, at)?))
        } else if arm == 167 {
            Ok(Self::ChatEvents(ChatEvents::decode(j, at)?))
        } else if arm == 168 {
            Ok(Self::ChatEventLogFilters(ChatEventLogFilters::decode(j, at)?))
        } else {
            Self::decode_arm_15(arm, j, at)
        }
    }

    fn decode_arm_15(arm: u16, j: &Json, at: &str) -> (r: Result<Self, DecodeError>)
        requires
            169 <= arm <= Self::ARMS,
        ensures
            match r {
                Ok(v) => Self::parse_arm_15(arm as int, j@, at@) == Ok::<Doc, Fault>(v.wire()),
                Err(e) => Self::parse_arm_15(arm as int, j@, at@) == Err::<Doc, Fault>(e@),
            },
    {
        proof {
            reveal(<Response as Wire>::wire);
        }
        if arm == 169 {
            Ok(Self::LanguagePackStringValue(LanguagePackStringValue::decode(j, at)?))
        } else if arm == 170 {
            Ok(Self::LanguagePackString(LanguagePackString::decode(j, at)?))
        } else if arm == 171 {
            Ok(Self::LanguagePackStrings(LanguagePackStrings::decode(j, at)?))
        } else if arm == 172 {
            Ok(Self::LanguagePackInfo(LanguagePackInfo::decode(j, at)?))
        } else if arm == 173 {
            Ok(Self::LocalizationTargetInfo(LocalizationTargetInfo::decode(j, at)?))
        } else if arm == 174 {
            Ok(Self::DeviceToken(DeviceToken::decode(j, at)?))
        } else if arm == 175 {
            Ok(Self::PushReceiverId(PushReceiverId::decode(j, at)?))
        } else if arm == 176 {
            Ok(Self::BackgroundFill(BackgroundFill::decode(j, at)?))
        } else if arm == 177 {
            Ok(Self::BackgroundType(BackgroundType::decode(j, at)?))
        } else if arm == 178 {
            Ok(Self::Background(Background::decode(j, at)?))
        } else if arm == 179 {
            Ok(Self::Backgrounds(Backgrounds::decode(j, at)?))
        } else if arm == 180 {
            Ok(Self::InputBackground(InputBackground::decode(j, at)?))
        } else {
            Self::decode_arm_16(arm, j, at)
        }
    }

    fn decode_arm_16(arm: u16, j: &Json, at: &str) -> (r: Result<Self, DecodeError>)
        requires
            181 <= arm <= Self::ARMS,
        ensures
            match r {
                Ok(v) => Self::parse_arm_16(arm as int, j@, at@) == Ok::<Doc, Fault>(v.wire()),
                Err(e) => Self::parse_arm_16(arm as int, j@, at@) == Err::<Doc, Fault>(e@),
            },
    {
        proof {
            reveal(<Response as Wire>::wire);
        }
        if arm == 181 {
            Ok(Self::Hashtags(Hashtags::decode(j, at)?))
        } else if arm == 182 {
            Ok(Self::CanTransferOwnershipResult(CanTransferOwnershipResult::decode(j, at)?))
        } else if arm == 183 {
            Ok(Self::CheckChatUsernameResult(CheckChatUsernameResult::decode(j, at)?))
        } else if arm == 184 {
            Ok(Self::PushMessageContent(PushMessageContent::decode(j, at)?))
        } else if arm == 185 {
            Ok(Self::NotificationType(NotificationType::decode(j, at)?))
        } else if arm == 186 {
            Ok(Self::NotificationGroupType(NotificationGroupType::decode(j, at)?))
        } else if arm == 187 {
            Ok(Self::Notification(Notification::decode(j, at)?))
        } else if arm == 188 {
            Ok(Self::NotificationGroup(NotificationGroup::decode(j, at)?))
        } else if arm == 189 {
            Ok(Self::OptionValue(OptionValue::decode(j, at)?))
        } else if arm == 190 {
            Ok(Self::JsonObjectMember(JsonObjectMember::decode(j, at)?))
        } else if arm == 191 {
            Ok(Self::JsonValue(JsonValue::decode(j, at)?))
        } else if arm == 192 {
            Ok(Self::UserPrivacySettingRule(UserPrivacySettingRule::decode(j, at)?))
        } else {
            Self::decode_arm_17(arm, j, at)
        }
    }

    fn decode_arm_17(arm: u16, j: &Json, at: &str) -> (r: Result<Self, DecodeError>)
        requires
            193 <= arm <= Self::ARMS,
        ensures
            match r {
                Ok(v) => Self::parse_arm_17(arm as int, j@, at@) == Ok::<Doc, Fault>(v.wire()),
                Err(e) => Self::parse_arm_17(arm as int, j@, at@) == Err::<Doc, Fault>(e@),
            },
    {
        proof {
            reveal(<Response as Wire>::wire);
        }
        if arm == 193 {
            Ok(Self::UserPrivacySettingRules(UserPrivacySettingRules::decode(j, at)?))
        } else if arm == 194 {
            Ok(Self::UserPrivacySetting(UserPrivacySetting::decode(j, at)?))
        } else if arm == 195 {
            Ok(Self::AccountTtl(AccountTtl::decode(j, at)?))
        } else if arm == 196 {
            Ok(Self::Session(Session::decode(j, at)?))
        } else if arm == 197 {
            Ok(Self::Sessions(Sessions::decode(j, at)?))
        } else if arm == 198 {
            Ok(Self::ConnectedWebsite(ConnectedWebsite::decode(j, at)?))
        } else if arm == 199 {
            Ok(Self::ConnectedWebsites(ConnectedWebsites::decode(j, at)?))
        } else if arm == 200 {
            Ok(Self::ChatReportReason(ChatReportReason::decode(j, at)?))
        } else if arm == 201 {
            Ok(Self::PublicMessageLink(PublicMessageLink::decode(j, at)?))
        } else if arm == 202 {
            Ok(Self::MessageLinkInfo(MessageLinkInfo::decode(j, at)?))
        } else if arm == 203 {
            Ok(Self::FilePart(FilePart::decode(j, at)?))
        } else if arm == 204 {
            Ok(Self::FileType(FileType::decode(j, at)?))
        } else {
            Self::decode_arm_18(arm, j, at)
        }
    }

    fn decode_arm_18(arm: u16, j: &Json, at: &str) -> (r: Result<Self, DecodeError>)
        requires
            205 <= arm <= Self::ARMS,
        ensures
            match r {
                Ok(v) => Self::parse_arm_18(arm as int, j@, at@) == Ok::<Doc, Fault>(v.wire()),
                Err(e) => Self::parse_arm_18(arm as int, j@, at@) == Err::<Doc, Fault>(e@),
            },
    {
        proof {
            reveal(<Response as Wire>::wire);
        }
        if arm == 205 {
            Ok(Self::StorageStatisticsByFileType(StorageStatisticsByFileType::decode(j, at)?))
        } else if arm == 206 {
            Ok(Self::StorageStatisticsByChat(StorageStatisticsByChat::decode(j, at)?))
        } else if arm == 207 {
            Ok(Self::StorageStatistics(StorageStatistics::decode(j, at)?))
        } else if arm == 208 {
            Ok(Self::StorageStatisticsFast(StorageStatisticsFast::decode(j, at)?))
        } else if arm == 209 {
            Ok(Self::DatabaseStatistics(DatabaseStatistics::decode(j, at)?))
        } else if arm == 210 {
            Ok(Self::NetworkType(NetworkType::decode(j, at)?))
        } else if arm == 211 {
            Ok(Self::NetworkStatisticsEntry(NetworkStatisticsEntry::decode(j, at)?))
        } else if arm == 212 {
            Ok(Self::NetworkStatistics(NetworkStatistics::decode(j, at)?))
        } else if arm == 213 {
            Ok(Self::AutoDownloadSettings(AutoDownloadSettings::decode(j, at)?))
        } else if arm == 214 {
            Ok(Self::AutoDownloadSettingsPresets(AutoDownloadSettingsPresets::decode(j, at)?))
        } else if arm == 215 {
            Ok(Self::ConnectionState(ConnectionState::decode(j, at)?))
        } else if arm == 216 {
            Ok(Self::TopChatCategory(TopChatCategory::decode(j, at)?))
        } else {
            Self::decode_arm_19(arm, j, at)
        }
    }

    fn decode_arm_19(arm: u16, j: &Json, at: &str) -> (r: Result<Self, DecodeError>)
        requires
            217 <= arm <= Self::ARMS,
        ensures
            match r {
                Ok(v) => Self::parse_arm_19(arm as int, j@, at@) == Ok::<Doc, Fault>(v.wire()),
                Err(e) => Self::parse_arm_19(arm as int, j@, at@) == Err::<Doc, Fault>(e@),
            },
    {
        proof {
            reveal(<Response as Wire>::wire);
        }
        if arm == 217 {
            Ok(Self::TMeUrlType(TMeUrlType::decode(j, at)?))
        } else if arm == 218 {
            Ok(Self::TMeUrl(TMeUrl::decode(j, at)?))
        } else if arm == 219 {
            Ok(Self::TMeUrls(TMeUrls::decode(j, at)?))
        } else if arm == 220 {
            Ok(Self::Count(Count::decode(j, at)?))
        } else if arm == 221 {
            Ok(Self::Text(Text::decode(j, at)?))
        } else if arm == 222 {
            Ok(Self::Seconds(Seconds::decode(j, at)?))
        } else if arm == 223 {
            Ok(Self::DeepLinkInfo(DeepLinkInfo::decode(j, at)?))
        } else if arm == 224 {
            Ok(Self::TextParseMode(TextParseMode::decode(j, at)?))
        } else if arm == 225 {
            Ok(Self::ProxyType(ProxyType::decode(j, at)?))
        } else if arm == 226 {
            Ok(Self::Proxy(Proxy::decode(j, at)?))
        } else if arm == 227 {
            Ok(Self::Proxies(Proxies::decode(j, at)?))
        } else if arm == 228 {
            Ok(Self::InputSticker(InputSticker::decode(j, at)?))
        } else {
            Self::decode_arm_20(arm, j, at)
        }
    }

    fn decode_arm_20(arm: u16, j: &Json, at: &str) -> (r: Result<Self, DecodeError>)
        requires
            229 <= arm <= Self::ARMS,
        ensures
            match r {
                Ok(v) => Self::parse_arm_20(arm as int, j@, at@) == Ok::<Doc, Fault>(v.wire()),
                Err(e) => Self::parse_arm_20(arm as int, j@, at@) == Err::<Doc, Fault>(e@),
            },
    {
        proof {
            reveal(<Response as Wire>::wire);
        }
        if arm == 229 {
            Ok(Self::UpdateAuthorizationState(UpdateAuthorizationState::decode(j, at)?))
        } else if arm == 230 {
            Ok(Self::UpdateNewMessage(UpdateNewMessage::decode(j, at)?))
        } else if arm == 231 {
            Ok(Self::UpdateMessageSendAcknowledged(UpdateMessageSendAcknowledged::decode(j, at)?))
        } else if arm == 232 {
            Ok(Self::UpdateMessageSendSucceeded(UpdateMessageSendSucceeded::decode(j, at)?))
        } else if arm == 233 {
            Ok(Self::UpdateMessageSendFailed(UpdateMessageSendFailed::decode(j, at)?))
        } else if arm == 234 {
            Ok(Self::UpdateMessageContent(UpdateMessageContent::decode(j, at)?))
        } else if arm == 235 {
            Ok(Self::UpdateMessageEdited(UpdateMessageEdited::decode(j, at)?))
        } else if arm == 236 {
            Ok(Self::UpdateMessageViews(UpdateMessageViews::decode(j, at)?))
        } else if arm == 237 {
            Ok(Self::UpdateMessageContentOpened(UpdateMessageContentOpened::decode(j, at)?))
        } else if arm == 238 {
            Ok(Self::UpdateMessageMentionRead(UpdateMessageMentionRead::decode(j, at)?))
        } else if arm == 239 {
            Ok(
                Self::UpdateMessageLiveLocationViewed(
                    UpdateMessageLiveLocationViewed::decode(j, at)?,
                ),
            )
        } else if arm == 240 {
            Ok(Self::UpdateNewChat(UpdateNewChat::decode(j, at)?))
        } else {
            Self::decode_arm_21(arm, j, at)
        }
    }

    fn decode_arm_21(arm: u16, j: &Json, at: &str) -> (r: Result<Self, DecodeError>)
        requires
            241 <= arm <= Self::ARMS,
        ensures
            match r {
                Ok(v) => Self::parse_arm_21(arm as int, j@, at@) == Ok::<Doc, Fault>(v.wire()),
                Err(e) => Self::parse_arm_21(arm as int, j@, at@) == Err::<Doc, Fault>(e@),
            },
    {
        proof {
            reveal(<Response as Wire>::wire);
        }
        if arm == 241 {
            Ok(Self::UpdateChatChatList(UpdateChatChatList::decode(j, at)?))
        } else if arm == 242 {
            Ok(Self::UpdateChatTitle(UpdateChatTitle::decode(j, at)?))
        } else if arm == 243 {
            Ok(Self::UpdateChatPhoto(UpdateChatPhoto::decode(j, at)?))
        } else if arm == 244 {
            Ok(Self::UpdateChatPermissions(UpdateChatPermissions::decode(j, at)?))
        } else if arm == 245 {
            Ok(Self::UpdateChatLastMessage(UpdateChatLastMessage::decode(j, at)?))
        } else if arm == 246 {
            Ok(Self::UpdateChatOrder(UpdateChatOrder::decode(j, at)?))
        } else if arm == 247 {
            Ok(Self::UpdateChatIsPinned(UpdateChatIsPinned::decode(j, at)?))
        } else if arm == 248 {
            Ok(Self::UpdateChatIsMarkedAsUnread(UpdateChatIsMarkedAsUnread::decode(j, at)?))
        } else if arm == 249 {
            Ok(Self::UpdateChatIsSponsored(UpdateChatIsSponsored::decode(j, at)?))
        } else if arm == 250 {
            Ok(Self::UpdateChatHasScheduledMessages(UpdateChatHasScheduledMessages::decode(j, at)?))
        } else if arm == 251 {
            Ok(
                Self::UpdateChatDefaultDisableNotification(
                    UpdateChatDefaultDisableNotification::decode(j, at)?,
                ),
            )
        } else if arm == 252 {
            Ok(Self::UpdateChatReadInbox(UpdateChatReadInbox::decode(j, at)?))
        } else {
            Self::decode_arm_22(arm, j, at)
        }
    }

    fn decode_arm_22(arm: u16, j: &Json, at: &str) -> (r: Result<Self, DecodeError>)
        requires
            253 <= arm <= Self::ARMS,
        ensures
            match r {
                Ok(v) => Self::parse_arm_22(arm as int, j@, at@) == Ok::<Doc, Fault>(v.wire()),
                Err(e) => Self::parse_arm_22(arm as int, j@, at@) == Err::<Doc, Fault>(e@),
            },
    {
        proof {
            reveal(<Response as Wire>::wire);
        }
        if arm == 253 {
            Ok(Self::UpdateChatReadOutbox(UpdateChatReadOutbox::decode(j, at)?))
        } else if arm == 254 {
            Ok(Self::UpdateChatUnreadMentionCount(UpdateChatUnreadMentionCount::decode(j, at)?))
        } else if arm == 255 {
            Ok(Self::UpdateChatNotificationSettings(UpdateChatNotificationSettings::decode(j, at)?))
        } else if arm == 256 {
            Ok(
                Self::UpdateScopeNotificationSettings(
                    UpdateScopeNotificationSettings::decode(j, at)?,
                ),
            )
        } else if arm == 257 {
            Ok(Self::UpdateChatActionBar(UpdateChatActionBar::decode(j, at)?))
        } else if arm == 258 {
            Ok(Self::UpdateChatPinnedMessage(UpdateChatPinnedMessage::decode(j, at)?))
        } else if arm == 259 {
            Ok(Self::UpdateChatReplyMarkup(UpdateChatReplyMarkup::decode(j, at)?))
        } else if arm == 260 {
            Ok(Self::UpdateChatDraftMessage(UpdateChatDraftMessage::decode(j, at)?))
        } else if arm == 261 {
            Ok(Self::UpdateChatOnlineMemberCount(UpdateChatOnlineMemberCount::decode(j, at)?))
        } else if arm == 262 {
            Ok(Self::UpdateNotification(UpdateNotification::decode(j, at)?))
        } else if arm == 263 {
            Ok(Self::UpdateNotificationGroup(UpdateNotificationGroup::decode(j, at)?))
        } else if arm == 264 {
            Ok(Self::UpdateActiveNotifications(UpdateActiveNotifications::decode(j, at)?))
        } else {
            Self::decode_arm_23(arm, j, at)
        }
    }

    fn decode_arm_23(arm: u16, j: &Json, at: &str) -> (r: Result<Self, DecodeError>)
        requires
            265 <= arm <= Self::ARMS,
        ensures
            match r {
                Ok(v) => Self::parse_arm_23(arm as int, j@, at@) == Ok::<Doc, Fault>(v.wire()),
                Err(e) => Self::parse_arm_23(arm as int, j@, at@) == Err::<Doc, Fault>(e@),
            },
    {
        proof {
            reveal(<Response as Wire>::wire);
        }
        if arm == 265 {
            Ok(Self::UpdateHavePendingNotifications(UpdateHavePendingNotifications::decode(j, at)?))
        } else if arm == 266 {
            Ok(Self::UpdateDeleteMessages(UpdateDeleteMessages::decode(j, at)?))
        } else if arm == 267 {
            Ok(Self::UpdateUserChatAction(UpdateUserChatAction::decode(j, at)?))
        } else if arm == 268 {
            Ok(Self::UpdateUserStatus(UpdateUserStatus::decode(j, at)?))
        } else if arm == 269 {
            Ok(Self::UpdateUser(UpdateUser::decode(j, at)?))
        } else if arm == 270 {
            Ok(Self::UpdateBasicGroup(UpdateBasicGroup::decode(j, at)?))
        } else if arm == 271 {
            Ok(Self::UpdateSupergroup(UpdateSupergroup::decode(j, at)?))
        } else if arm == 272 {
            Ok(Self::UpdateSecretChat(UpdateSecretChat::decode(j, at)?))
        } else if arm == 273 {
            Ok(Self::UpdateUserFullInfo(UpdateUserFullInfo::decode(j, at)?))
        } else if arm == 274 {
            Ok(Self::UpdateBasicGroupFullInfo(UpdateBasicGroupFullInfo::decode(j, at)?))
        } else if arm == 275 {
            Ok(Self::UpdateSupergroupFullInfo(UpdateSupergroupFullInfo::decode(j, at)?))
        } else if arm == 276 {
            Ok(Self::UpdateServiceNotification(UpdateServiceNotification::decode(j, at)?))
        } else {
            Self::decode_arm_24(arm, j, at)
        }
    }

    fn decode_arm_24(arm: u16, j: &Json, at: &str) -> (r: Result<Self, DecodeError>)
        requires
            277 <= arm <= Self::ARMS,
        ensures
            match r {
                Ok(v) => Self::parse_arm_24(arm as int, j@, at@) == Ok::<Doc, Fault>(v.wire()),
                Err(e) => Self::parse_arm_24(arm as int, j@, at@) == Err::<Doc, Fault>(e@),
            },
    {
        proof {
            reveal(<Response as Wire>::wire);
        }
        if arm == 277 {
            Ok(Self::UpdateFile(UpdateFile::decode(j, at)?))
        } else if arm == 278 {
            Ok(Self::UpdateFileGenerationStart(UpdateFileGenerationStart::decode(j, at)?))
        } else if arm == 279 {
            Ok(Self::UpdateFileGenerationStop(UpdateFileGenerationStop::decode(j, at)?))
        } else if arm == 280 {
            Ok(Self::UpdateCall(UpdateCall::decode(j, at)?))
        } else if arm == 281 {
            Ok(Self::UpdateUserPrivacySettingRules(UpdateUserPrivacySettingRules::decode(j, at)?))
        } else if arm == 282 {
            Ok(Self::UpdateUnreadMessageCount(UpdateUnreadMessageCount::decode(j, at)?))
        } else if arm == 283 {
            Ok(Self::UpdateUnreadChatCount(UpdateUnreadChatCount::decode(j, at)?))
        } else if arm == 284 {
            Ok(Self::UpdateOption(UpdateOption::decode(j, at)?))
        } else if arm == 285 {
            Ok(Self::UpdateInstalledStickerSets(UpdateInstalledStickerSets::decode(j, at)?))
        } else if arm == 286 {
            Ok(Self::UpdateTrendingStickerSets(UpdateTrendingStickerSets::decode(j, at)?))
        } else if arm == 287 {
            Ok(Self::UpdateRecentStickers(UpdateRecentStickers::decode(j, at)?))
        } else if arm == 288 {
            Ok(Self::UpdateFavoriteStickers(UpdateFavoriteStickers::decode(j, at)?))
        } else {
            Self::decode_arm_25(arm, j, at)
        }
    }

    fn decode_arm_25(arm: u16, j: &Json, at: &str) -> (r: Result<Self, DecodeError>)
        requires
            289 <= arm <= Self::ARMS,
        ensures
            match r {
                Ok(v) => Self::parse_arm_25(arm as int, j@, at@) == Ok::<Doc, Fault>(v.wire()),
                Err(e) => Self::parse_arm_25(arm as int, j@, at@) == Err::<Doc, Fault>(e@),
            },
    {
        proof {
            reveal(<Response as Wire>::wire);
        }
        if arm == 289 {
            Ok(Self::UpdateSavedAnimations(UpdateSavedAnimations::decode(j, at)?))
        } else if arm == 290 {
            Ok(Self::UpdateSelectedBackground(UpdateSelectedBackground::decode(j, at)?))
        } else if arm == 291 {
            Ok(Self::UpdateLanguagePackStrings(UpdateLanguagePackStrings::decode(j, at)?))
        } else if arm == 292 {
            Ok(Self::UpdateConnectionState(UpdateConnectionState::decode(j, at)?))
        } else if arm == 293 {
            Ok(Self::UpdateTermsOfService(UpdateTermsOfService::decode(j, at)?))
        } else if arm == 294 {
            Ok(Self::UpdateUsersNearby(UpdateUsersNearby::decode(j, at)?))
        } else if arm == 295 {
            Ok(Self::UpdateNewInlineQuery(UpdateNewInlineQuery::decode(j, at)?))
        } else if arm == 296 {
            Ok(Self::UpdateNewChosenInlineResult(UpdateNewChosenInlineResult::decode(j, at)?))
        } else if arm == 297 {
            Ok(Self::UpdateNewCallbackQuery(UpdateNewCallbackQuery::decode(j, at)?))
        } else if arm == 298 {
            Ok(Self::UpdateNewInlineCallbackQuery(UpdateNewInlineCallbackQuery::decode(j, at)?))
        } else if arm == 299 {
            Ok(Self::UpdateNewShippingQuery(UpdateNewShippingQuery::decode(j, at)?))
        } else if arm == 300 {
            Ok(Self::UpdateNewPreCheckoutQuery(UpdateNewPreCheckoutQuery::decode(j, at)?))
        } else {
            Self::decode_arm_26(arm, j, at)
        }
    }

    fn decode_arm_26(arm: u16, j: &Json, at: &str) -> (r: Result<Self, DecodeError>)
        requires
            301 <= arm <= Self::ARMS,
        ensures
            match r {
                Ok(v) => Self::parse_arm_26(arm as int, j@, at@) == Ok::<Doc, Fault>(v.wire()),
                Err(e) => Self::parse_arm_26(arm as int, j@, at@) == Err::<Doc, Fault>(e@),
            },
    {
        proof {
            reveal(<Response as Wire>::wire);
        }
        if arm == 301 {
            Ok(Self::UpdateNewCustomEvent(UpdateNewCustomEvent::decode(j, at)?))
        } else if arm == 302 {
            Ok(Self::UpdateNewCustomQuery(UpdateNewCustomQuery::decode(j, at)?))
        } else if arm == 303 {
            Ok(Self::UpdatePoll(UpdatePoll::decode(j, at)?))
        } else if arm == 304 {
            Ok(Self::UpdatePollAnswer(UpdatePollAnswer::decode(j, at)?))
        } else if arm == 305 {
            Ok(Self::Updates(Updates::decode(j, at)?))
        } else if arm == 306 {
            Ok(Self::LogStream(LogStream::decode(j, at)?))
        } else if arm == 307 {
            Ok(Self::LogVerbosityLevel(LogVerbosityLevel::decode(j, at)?))
        } else if arm == 308 {
            Ok(Self::LogTags(LogTags::decode(j, at)?))
        } else if arm == 309 {
            Ok(Self::TestInt(TestInt::decode(j, at)?))
        } else if arm == 310 {
            Ok(Self::TestString(TestString::decode(j, at)?))
        } else if arm == 311 {
            Ok(Self::TestBytes(TestBytes::decode(j, at)?))
        } else if arm == 312 {
            Ok(Self::TestVectorInt(TestVectorInt::decode(j, at)?))
        } else {
            Self::decode_arm_27(arm, j, at)
        }
    }

    fn decode_arm_27(arm: u16, j: &Json, at: &str) -> (r: Result<Self, DecodeError>)
        requires
            313 <= arm <= Self::ARMS,
        ensures
            match r {
                Ok(v) => Self::parse_arm_27(arm as int, j@, at@) == Ok::<Doc, Fault>(v.wire()),
                Err(e) => Self::parse_arm_27(arm as int, j@, at@) == Err::<Doc, Fault>(e@),
            },
    {
        proof {
            reveal(<Response as Wire>::wire);
        }
        if arm == 313 {
            Ok(Self::TestVectorIntObject(TestVectorIntObject::decode(j, at)?))
        } else if arm == 314 {
            Ok(Self::TestVectorString(TestVectorString::decode(j, at)?))
        } else {
            Ok(Self::TestVectorStringObject(TestVectorStringObject::decode(j, at)?))
        }
    }

    spec fn spelled_4() -> bool {
        &&& "call"@[0] == 'c'
        &&& "call"@[1] == 'a'
        &&& "chat"@[0] == 'c'
        &&& "chat"@[1] == 'h'
        &&& "date"@[0] == 'd'
        &&& "date"@[1] == 'a'
        &&& "file"@[0] == 'f'
        &&& "file"@[1] == 'i'
        &&& "game"@[0] == 'g'
        &&& "game"@[1] == 'a'
        &&& "poll"@[0] == 'p'
        &&& "poll"@[1] == 'o'
        &&& "text"@[0] == 't'
        &&& "text"@[1] == 'e'
        &&& "user"@[0] == 'u'
        &&& "user"@[1] == 's'
    }

    /// What tells apart the discriminators of 4 characters.
    proof fn tags_spelled_4()
        ensures
            Self::spelled_4(),
    {
        reveal_strlit("call");
        reveal_strlit("chat");
        reveal_strlit("date");
        reveal_strlit("file");
        reveal_strlit("game");
        reveal_strlit("poll");
        reveal_strlit("text");
        reveal_strlit("user");
    }

    spec fn spelled_5() -> bool {
        &&& "audio"@[0] == 'a'
        &&& "audio"@[3] == 'i'
        &&& "chats"@[0] == 'c'
        &&& "chats"@[3] == 't'
        &&& "count"@[0] == 'c'
        &&& "count"@[3] == 'n'
        &&& "error"@[0] == 'e'
        &&& "error"@[3] == 'o'
        &&& "photo"@[0] == 'p'
        &&& "photo"@[3] == 't'
        &&& "proxy"@[0] == 'p'
        &&& "proxy"@[3] == 'x'
        &&& "users"@[0] == 'u'
        &&& "users"@[3] == 'r'
        &&& "venue"@[0] == 'v'
        &&& "venue"@[3] == 'u'
        &&& "video"@[0] == 'v'
        &&& "video"@[3] == 'e'
    }

    /// What tells apart the discriminators of 5 characters.
    proof fn tags_spelled_5()
        ensures
            Self::spelled_5(),
    {
        reveal_strlit("audio");
        reveal_strlit("chats");
        reveal_strlit("count");
        reveal_strlit("error");
        reveal_strlit("photo");
        reveal_strlit("proxy");
        reveal_strlit("users");
        reveal_strlit("venue");
        reveal_strlit("video");
    }

    spec fn spelled_6() -> bool {
        &&& "callId"@[0] == 'c'
        &&& "emojis"@[0] == 'e'
        &&& "tMeUrl"@[0] == 't'
    }

    /// What tells apart the discriminators of 6 characters.
    proof fn tags_spelled_6()
        ensures
            Self::spelled_6(),
    {
        reveal_strlit("callId");
        reveal_strlit("emojis");
        reveal_strlit("tMeUrl");
    }

    spec fn spelled_7() -> bool {
        &&& "address"@[0] == 'a'
        &&& "address"@[2] == 'd'
        &&& "botInfo"@[0] == 'b'
        &&& "botInfo"@[2] == 't'
        &&& "contact"@[0] == 'c'
        &&& "contact"@[2] == 'n'
        &&& "httpUrl"@[0] == 'h'
        &&& "httpUrl"@[2] == 't'
        &&& "invoice"@[0] == 'i'
        &&& "invoice"@[2] == 'v'
        &&& "logTags"@[0] == 'l'
        &&& "logTags"@[2] == 'g'
        &&& "message"@[0] == 'm'
        &&& "message"@[2] == 's'
        &&& "proxies"@[0] == 'p'
        &&& "proxies"@[2] == 'o'
        &&& "seconds"@[0] == 's'
        &&& "seconds"@[2] == 'c'
        &&& "session"@[0] == 's'
        &&& "session"@[2] == 's'
        &&& "sticker"@[0] == 's'
        &&& "sticker"@[2] == 'i'
        &&& "tMeUrls"@[0] == 't'
        &&& "tMeUrls"@[2] == 'e'
        &&& "testInt"@[0] == 't'
        &&& "testInt"@[2] == 's'
        &&& "updates"@[0] == 'u'
        &&& "updates"@[2] == 'd'
        &&& "webPage"@[0] == 'w'
        &&& "webPage"@[2] == 'b'
    }

    /// What tells apart the discriminators of 7 characters.
    proof fn tags_spelled_7()
        ensures
            Self::spelled_7(),
    {
        reveal_strlit("address");
        reveal_strlit("botInfo");
        reveal_strlit("contact");
        reveal_strlit("httpUrl");
        reveal_strlit("invoice");
        reveal_strlit("logTags");
        reveal_strlit("message");
        reveal_strlit("proxies");
        reveal_strlit("seconds");
        reveal_strlit("session");
        reveal_strlit("sticker");
        reveal_strlit("tMeUrls");
        reveal_strlit("testInt");
        reveal_strlit("updates");
        reveal_strlit("webPage");
    }

    spec fn spelled_8() -> bool {
        &&& "document"@[0] == 'd'
        &&& "document"@[1] == 'o'
        &&& "filePart"@[0] == 'f'
        &&& "filePart"@[1] == 'i'
        &&& "hashtags"@[0] == 'h'
        &&& "hashtags"@[1] == 'a'
        &&& "location"@[0] == 'l'
        &&& "location"@[1] == 'o'
        &&& "messages"@[0] == 'm'
        &&& "messages"@[1] == 'e'
        &&& "sessions"@[0] == 's'
        &&& "sessions"@[1] == 'e'
        &&& "stickers"@[0] == 's'
        &&& "stickers"@[1] == 't'
    }

    /// What tells apart the discriminators of 8 characters.
    proof fn tags_spelled_8()
        ensures
            Self::spelled_8(),
    {
        reveal_strlit("document");
        reveal_strlit("filePart");
        reveal_strlit("hashtags");
        reveal_strlit("location");
        reveal_strlit("messages");
        reveal_strlit("sessions");
        reveal_strlit("stickers");
    }

    spec fn spelled_9() -> bool {
        &&& "animation"@[0] == 'a'
        &&& "animation"@[4] == 'a'
        &&& "chatEvent"@[0] == 'c'
        &&& "chatEvent"@[4] == 'E'
        &&& "chatPhoto"@[0] == 'c'
        &&& "chatPhoto"@[4] == 'P'
        &&& "datedFile"@[0] == 'd'
        &&& "datedFile"@[4] == 'd'
        &&& "localFile"@[0] == 'l'
        &&& "localFile"@[4] == 'l'
        &&& "orderInfo"@[0] == 'o'
        &&& "orderInfo"@[4] == 'r'
        &&& "photoSize"@[0] == 'p'
        &&& "photoSize"@[4] == 'o'
        &&& "richTexts"@[0] == 'r'
        &&& "richTexts"@[4] == 'T'
        &&& "testBytes"@[0] == 't'
        &&& "testBytes"@[4] == 'B'
        &&& "videoNote"@[0] == 'v'
        &&& "videoNote"@[4] == 'o'
        &&& "voiceNote"@[0] == 'v'
        &&& "voiceNote"@[4] == 'e'
    }

    /// What tells apart the discriminators of 9 characters.
    proof fn tags_spelled_9()
        ensures
            Self::spelled_9(),
    {
        reveal_strlit("animation");
        reveal_strlit("chatEvent");
        reveal_strlit("chatPhoto");
        reveal_strlit("datedFile");
        reveal_strlit("localFile");
        reveal_strlit("orderInfo");
        reveal_strlit("photoSize");
        reveal_strlit("richTexts");
        reveal_strlit("testBytes");
        reveal_strlit("videoNote");
        reveal_strlit("voiceNote");
    }

    spec fn spelled_10() -> bool {
        &&& "accountTtl"@[0] == 'a'
        &&& "accountTtl"@[4] == 'u'
        &&& "accountTtl"@[6] == 't'
        &&& "animations"@[0] == 'a'
        &&& "animations"@[4] == 'a'
        &&& "animations"@[6] == 'i'
        &&& "background"@[0] == 'b'
        &&& "background"@[4] == 'g'
        &&& "background"@[6] == 'o'
        &&& "basicGroup"@[0] == 'b'
        &&& "basicGroup"@[4] == 'c'
        &&& "basicGroup"@[6] == 'r'
        &&& "botCommand"@[0] == 'b'
        &&& "botCommand"@[4] == 'o'
        &&& "botCommand"@[6] == 'm'
        &&& "chatEvents"@[0] == 'c'
        &&& "chatEvents"@[4] == 'E'
        &&& "chatEvents"@[6] == 'e'
        &&& "chatMember"@[0] == 'c'
        &&& "chatMember"@[4] == 'M'
        &&& "chatMember"@[6] == 'm'
        &&& "chatNearby"@[0] == 'c'
        &&& "chatNearby"@[4] == 'N'
        &&& "chatNearby"@[6] == 'a'
        &&& "pollOption"@[0] == 'p'
        &&& "pollOption"@[4] == 'O'
        &&& "pollOption"@[6] == 't'
        &&& "remoteFile"@[0] == 'r'
        &&& "remoteFile"@[4] == 't'
        &&& "remoteFile"@[6] == 'F'
        &&& "secretChat"@[0] == 's'
        &&& "secretChat"@[4] == 'e'
        &&& "secretChat"@[6] == 'C'
        &&& "stickerSet"@[0] == 's'
        &&& "stickerSet"@[4] == 'k'
        &&& "stickerSet"@[6] == 'r'
        &&& "supergroup"@[0] == 's'
        &&& "supergroup"@[4] == 'r'
        &&& "supergroup"@[6] == 'r'
        &&& "testString"@[0] == 't'
        &&& "testString"@[4] == 'S'
        &&& "testString"@[6] == 'r'
        &&& "textEntity"@[0] == 't'
        &&& "textEntity"@[4] == 'E'
        &&& "textEntity"@[6] == 't'
        &&& "updateCall"@[0] == 'u'
        &&& "updateCall"@[4] == 't'
        &&& "updateCall"@[6] == 'C'
        &&& "updateFile"@[0] == 'u'
        &&& "updateFile"@[4] == 't'
        &&& "updateFile"@[6] == 'F'
        &&& "updatePoll"@[0] == 'u'
        &&& "updatePoll"@[4] == 't'
        &&& "updatePoll"@[6] == 'P'
        &&& "updateUser"@[0] == 'u'
        &&& "updateUser"@[4] == 't'
        &&& "updateUser"@[6] == 'U'
    }

    /// What tells apart the discriminators of 10 characters.
    proof fn tags_spelled_10()
        ensures
            Self::spelled_10(),
    {
        reveal_strlit("accountTtl");
        reveal_strlit("animations");
        reveal_strlit("background");
        reveal_strlit("basicGroup");
        reveal_strlit("botCommand");
        reveal_strlit("chatEvents");
        reveal_strlit("chatMember");
        reveal_strlit("chatNearby");
        reveal_strlit("pollOption");
        reveal_strlit("remoteFile");
        reveal_strlit("secretChat");
        reveal_strlit("stickerSet");
        reveal_strlit("supergroup");
        reveal_strlit("testString");
        reveal_strlit("textEntity");
        reveal_strlit("updateCall");
        reveal_strlit("updateFile");
        reveal_strlit("updatePoll");
        reveal_strlit("updateUser");
    }

    spec fn spelled_11() -> bool {
        &&& "backgrounds"@[7] == 'u'
        &&& "chatMembers"@[7] == 'b'
        &&& "chatsNearby"@[7] == 'a'
        &&& "inputFileId"@[7] == 'l'
        &&& "messageCall"@[7] == 'C'
        &&& "messageGame"@[7] == 'G'
        &&& "messagePoll"@[7] == 'P'
        &&& "messageText"@[7] == 'T'
        &&& "paymentForm"@[7] == 'F'
        &&& "richTextUrl"@[7] == 't'
        &&& "stickerSets"@[7] == 'S'
        &&& "userTypeBot"@[7] == 'e'
    }

    /// What tells apart the discriminators of 11 characters.
    proof fn tags_spelled_11()
        ensures
            Self::spelled_11(),
    {
        reveal_strlit("backgrounds");
        reveal_strlit("chatMembers");
        reveal_strlit("chatsNearby");
        reveal_strlit("inputFileId");
        reveal_strlit("messageCall");
        reveal_strlit("messageGame");
        reveal_strlit("messagePoll");
        reveal_strlit("messageText");
        reveal_strlit("paymentForm");
        reveal_strlit("richTextUrl");
        reveal_strlit("stickerSets");
        reveal_strlit("userTypeBot");
    }

    spec fn spelled_12() -> bool {
        &&& "callProtocol"@[0] == 'c'
        &&& "callProtocol"@[8] == 'o'
        &&& "chatListMain"@[0] == 'c'
        &&& "chatListMain"@[8] == 'M'
        &&& "chatLocation"@[0] == 'c'
        &&& "chatLocation"@[8] == 't'
        &&& "deepLinkInfo"@[0] == 'd'
        &&& "deepLinkInfo"@[8] == 'I'
        &&& "draftMessage"@[0] == 'd'
        &&& "draftMessage"@[8] == 's'
        &&& "fileTypeNone"@[0] == 'f'
        &&& "fileTypeNone"@[8] == 'N'
        &&& "inputSticker"@[0] == 'i'
        &&& "inputSticker"@[8] == 'c'
        &&& "maskPosition"@[0] == 'm'
        &&& "maskPosition"@[8] == 't'
        &&& "messageAudio"@[0] == 'm'
        &&& "messageAudio"@[8] == 'u'
        &&& "messagePhoto"@[0] == 'm'
        &&& "messagePhoto"@[8] == 'h'
        &&& "messageVenue"@[0] == 'm'
        &&& "messageVenue"@[8] == 'e'
        &&& "messageVideo"@[0] == 'm'
        &&& "messageVideo"@[8] == 'i'
        &&& "notification"@[0] == 'n'
        &&& "notification"@[8] == 't'
        &&& "pageBlockMap"@[0] == 'p'
        &&& "pageBlockMap"@[8] == 'k'
        &&& "pollTypeQuiz"@[0] == 'p'
        &&& "pollTypeQuiz"@[8] == 'Q'
        &&& "profilePhoto"@[0] == 'p'
        &&& "profilePhoto"@[8] == 'h'
        &&& "richTextBold"@[0] == 'r'
        &&& "richTextBold"@[8] == 'B'
        &&& "richTextIcon"@[0] == 'r'
        &&& "richTextIcon"@[8] == 'I'
        &&& "textEntities"@[0] == 't'
        &&& "textEntities"@[8] == 't'
        &&& "updateOption"@[0] == 'u'
        &&& "updateOption"@[8] == 't'
        &&& "userFullInfo"@[0] == 'u'
        &&& "userFullInfo"@[8] == 'I'
    }

    /// What tells apart the discriminators of 12 characters.
    proof fn tags_spelled_12()
        ensures
            Self::spelled_12(),
    {
        reveal_strlit("callProtocol");
        reveal_strlit("chatListMain");
        reveal_strlit("chatLocation");
        reveal_strlit("deepLinkInfo");
        reveal_strlit("draftMessage");
        reveal_strlit("fileTypeNone");
        reveal_strlit("inputSticker");
        reveal_strlit("maskPosition");
        reveal_strlit("messageAudio");
        reveal_strlit("messagePhoto");
        reveal_strlit("messageVenue");
        reveal_strlit("messageVideo");
        reveal_strlit("notification");
        reveal_strlit("pageBlockMap");
        reveal_strlit("pollTypeQuiz");
        reveal_strlit("profilePhoto");
        reveal_strlit("richTextBold");
        reveal_strlit("richTextIcon");
        reveal_strlit("textEntities");
        reveal_strlit("updateOption");
        reveal_strlit("userFullInfo");
    }

    spec fn spelled_13() -> bool {
        &&& "fileTypeAudio"@[0] == 'f'
        &&& "fileTypeAudio"@[9] == 'u'
        &&& "fileTypePhoto"@[0] == 'f'
        &&& "fileTypePhoto"@[9] == 'h'
        &&& "fileTypeVideo"@[0] == 'f'
        &&& "fileTypeVideo"@[9] == 'i'
        &&& "formattedText"@[0] == 'f'
        &&& "formattedText"@[9] == 'T'
        &&& "foundMessages"@[0] == 'f'
        &&& "foundMessages"@[9] == 'a'
        &&& "gameHighScore"@[0] == 'g'
        &&& "gameHighScore"@[9] == 'c'
        &&& "jsonValueNull"@[0] == 'j'
        &&& "jsonValueNull"@[9] == 'N'
        &&& "logStreamFile"@[0] == 'l'
        &&& "logStreamFile"@[9] == 'F'
        &&& "maskPointChin"@[0] == 'm'
        &&& "maskPointChin"@[9] == 'C'
        &&& "maskPointEyes"@[0] == 'm'
        &&& "maskPointEyes"@[9] == 'E'
        &&& "minithumbnail"@[0] == 'm'
        &&& "minithumbnail"@[9] == 'n'
        &&& "pageBlockList"@[0] == 'p'
        &&& "pageBlockList"@[9] == 'L'
        &&& "passwordState"@[0] == 'p'
        &&& "passwordState"@[9] == 't'
        &&& "paymentResult"@[0] == 'p'
        &&& "paymentResult"@[9] == 's'
        &&& "proxyTypeHttp"@[0] == 'p'
        &&& "proxyTypeHttp"@[9] == 'H'
        &&& "richTextFixed"@[0] == 'r'
        &&& "richTextFixed"@[9] == 'i'
        &&& "richTextPlain"@[0] == 'r'
        &&& "richTextPlain"@[9] == 'l'
        &&& "testVectorInt"@[0] == 't'
        &&& "testVectorInt"@[9] == 'r'
        &&& "updateNewChat"@[0] == 'u'
        &&& "updateNewChat"@[9] == 'C'
    }

    /// What tells apart the discriminators of 13 characters.
    proof fn tags_spelled_13()
        ensures
            Self::spelled_13(),
    {
        reveal_strlit("fileTypeAudio");
        reveal_strlit("fileTypePhoto");
        reveal_strlit("fileTypeVideo");
        reveal_strlit("formattedText");
        reveal_strlit("foundMessages");
        reveal_strlit("gameHighScore");
        reveal_strlit("jsonValueNull");
        reveal_strlit("logStreamFile");
        reveal_strlit("maskPointChin");
        reveal_strlit("maskPointEyes");
        reveal_strlit("minithumbnail");
        reveal_strlit("pageBlockList");
        reveal_strlit("passwordState");
        reveal_strlit("paymentResult");
        reveal_strlit("proxyTypeHttp");
        reveal_strlit("richTextFixed");
        reveal_strlit("richTextPlain");
        reveal_strlit("testVectorInt");
        reveal_strlit("updateNewChat");
    }

    spec fn spelled_14() -> bool {
        &&& "callConnection"@[0] == 'c'
        &&& "callConnection"@[9] == 'c'
        &&& "callConnection"@[10] == 't'
        &&& "callConnection"@[11] == 'i'
        &&& "callStateError"@[0] == 'c'
        &&& "callStateError"@[9] == 'E'
        &&& "callStateError"@[10] == 'r'
        &&& "callStateError"@[11] == 'r'
        &&& "callStateReady"@[0] == 'c'
        &&& "callStateReady"@[9] == 'R'
        &&& "callStateReady"@[10] == 'e'
        &&& "callStateReady"@[11] == 'a'
        &&& "chatInviteLink"@[0] == 'c'
        &&& "chatInviteLink"@[9] == 'e'
        &&& "chatInviteLink"@[10] == 'L'
        &&& "chatInviteLink"@[11] == 'i'
        &&& "chatTypeSecret"@[0] == 'c'
        &&& "chatTypeSecret"@[9] == 'e'
        &&& "chatTypeSecret"@[10] == 'c'
        &&& "chatTypeSecret"@[11] == 'r'
        &&& "fileTypeSecret"@[0] == 'f'
        &&& "fileTypeSecret"@[9] == 'e'
        &&& "fileTypeSecret"@[10] == 'c'
        &&& "fileTypeSecret"@[11] == 'r'
        &&& "fileTypeSecure"@[0] == 'f'
        &&& "fileTypeSecure"@[9] == 'e'
        &&& "fileTypeSecure"@[10] == 'c'
        &&& "fileTypeSecure"@[11] == 'u'
        &&& "gameHighScores"@[0] == 'g'
        &&& "gameHighScores"@[9] == 'c'
        &&& "gameHighScores"@[10] == 'o'
        &&& "gameHighScores"@[11] == 'r'
        &&& "inputFileLocal"@[0] == 'i'
        &&& "inputFileLocal"@[9] == 'L'
        &&& "inputFileLocal"@[10] == 'o'
        &&& "inputFileLocal"@[11] == 'c'
        &&& "inputThumbnail"@[0] == 'i'
        &&& "inputThumbnail"@[9] == 'b'
        &&& "inputThumbnail"@[10] == 'n'
        &&& "inputThumbnail"@[11] == 'a'
        &&& "jsonValueArray"@[0] == 'j'
        &&& "jsonValueArray"@[9] == 'A'
        &&& "jsonValueArray"@[10] == 'r'
        &&& "jsonValueArray"@[11] == 'r'
        &&& "keyboardButton"@[0] == 'k'
        &&& "keyboardButton"@[9] == 'u'
        &&& "keyboardButton"@[10] == 't'
        &&& "keyboardButton"@[11] == 't'
        &&& "logStreamEmpty"@[0] == 'l'
        &&& "logStreamEmpty"@[9] == 'E'
        &&& "logStreamEmpty"@[10] == 'm'
        &&& "logStreamEmpty"@[11] == 'p'
        &&& "maskPointMouth"@[0] == 'm'
        &&& "maskPointMouth"@[9] == 'M'
        &&& "maskPointMouth"@[10] == 'o'
        &&& "maskPointMouth"@[11] == 'u'
        &&& "messageContact"@[0] == 'm'
        &&& "messageContact"@[9] == 'n'
        &&& "messageContact"@[10] == 't'
        &&& "messageContact"@[11] == 'a'
        &&& "messageInvoice"@[0] == 'm'
        &&& "messageInvoice"@[9] == 'v'
        &&& "messageInvoice"@[10] == 'o'
        &&& "messageInvoice"@[11] == 'i'
        &&& "messageSticker"@[0] == 'm'
        &&& "messageSticker"@[9] == 'i'
        &&& "messageSticker"@[10] == 'c'
        &&& "messageSticker"@[11] == 'k'
        &&& "pageBlockAudio"@[0] == 'p'
        &&& "pageBlockAudio"@[9] == 'A'
        &&& "pageBlockAudio"@[10] == 'u'
        &&& "pageBlockAudio"@[11] == 'd'
        &&& "pageBlockCover"@[0] == 'p'
        &&& "pageBlockCover"@[9] == 'C'
        &&& "pageBlockCover"@[10] == 'o'
        &&& "pageBlockCover"@[11] == 'v'
        &&& "pageBlockPhoto"@[0] == 'p'
        &&& "pageBlockPhoto"@[9] == 'P'
        &&& "pageBlockPhoto"@[10] == 'h'
        &&& "pageBlockPhoto"@[11] == 'o'
        &&& "pageBlockTable"@[0] == 'p'
        &&& "pageBlockTable"@[9] == 'T'
        &&& "pageBlockTable"@[10] == 'a'
        &&& "pageBlockTable"@[11] == 'b'
        &&& "pageBlockTitle"@[0] == 'p'
        &&& "pageBlockTitle"@[9] == 'T'
        &&& "pageBlockTitle"@[10] == 'i'
        &&& "pageBlockTitle"@[11] == 't'
        &&& "pageBlockVideo"@[0] == 'p'
        &&& "pageBlockVideo"@[9] == 'V'
        &&& "pageBlockVideo"@[10] == 'i'
        &&& "pageBlockVideo"@[11] == 'd'
        &&& "paymentReceipt"@[0] == 'p'
        &&& "paymentReceipt"@[9] == 'c'
        &&& "paymentReceipt"@[10] == 'e'
        &&& "paymentReceipt"@[11] == 'i'
        &&& "pushReceiverId"@[0] == 'p'
        &&& "pushReceiverId"@[9] == 'v'
        &&& "pushReceiverId"@[10] == 'e'
        &&& "pushReceiverId"@[11] == 'r'
        &&& "richTextAnchor"@[0] == 'r'
        &&& "richTextAnchor"@[9] == 'n'
        &&& "richTextAnchor"@[10] == 'c'
        &&& "richTextAnchor"@[11] == 'h'
        &&& "richTextItalic"@[0] == 'r'
        &&& "richTextItalic"@[9] == 't'
        &&& "richTextItalic"@[10] == 'a'
        &&& "richTextItalic"@[11] == 'l'
        &&& "richTextMarked"@[0] == 'r'
        &&& "richTextMarked"@[9] == 'a'
        &&& "richTextMarked"@[10] == 'r'
        &&& "richTextMarked"@[11] == 'k'
        &&& "shippingOption"@[0] == 's'
        &&& "shippingOption"@[9] == 'p'
        &&& "shippingOption"@[10] == 't'
        &&& "shippingOption"@[11] == 'i'
        &&& "stickerSetInfo"@[0] == 's'
        &&& "stickerSetInfo"@[9] == 't'
        &&& "stickerSetInfo"@[10] == 'I'
        &&& "stickerSetInfo"@[11] == 'n'
        &&& "tMeUrlTypeUser"@[0] == 't'
        &&& "tMeUrlTypeUser"@[9] == 'e'
        &&& "tMeUrlTypeUser"@[10] == 'U'
        &&& "tMeUrlTypeUser"@[11] == 's'
        &&& "termsOfService"@[0] == 't'
        &&& "termsOfService"@[9] == 'r'
        &&& "termsOfService"@[10] == 'v'
        &&& "termsOfService"@[11] == 'i'
    }

    /// What tells apart the discriminators of 14 characters.
    proof fn tags_spelled_14()
        ensures
            Self::spelled_14(),
    {
        reveal_strlit("callConnection");
        reveal_strlit("callStateError");
        reveal_strlit("callStateReady");
        reveal_strlit("chatInviteLink");
        reveal_strlit("chatTypeSecret");
        reveal_strlit("fileTypeSecret");
        reveal_strlit("fileTypeSecure");
        reveal_strlit("gameHighScores");
        reveal_strlit("inputFileLocal");
        reveal_strlit("inputThumbnail");
        reveal_strlit("jsonValueArray");
        reveal_strlit("keyboardButton");
        reveal_strlit("logStreamEmpty");
        reveal_strlit("maskPointMouth");
        reveal_strlit("messageContact");
        reveal_strlit("messageInvoice");
        reveal_strlit("messageSticker");
        reveal_strlit("pageBlockAudio");
        reveal_strlit("pageBlockCover");
        reveal_strlit("pageBlockPhoto");
        reveal_strlit("pageBlockTable");
        reveal_strlit("pageBlockTitle");
        reveal_strlit("pageBlockVideo");
        reveal_strlit("paymentReceipt");
        reveal_strlit("pushReceiverId");
        reveal_strlit("richTextAnchor");
        reveal_strlit("richTextItalic");
        reveal_strlit("richTextMarked");
        reveal_strlit("shippingOption");
        reveal_strlit("stickerSetInfo");
        reveal_strlit("tMeUrlTypeUser");
        reveal_strlit("termsOfService");
    }

    spec fn spelled_15() -> bool {
        &&& "callProblemEcho"@[1] == 'a'
        &&& "callProblemEcho"@[10] == 'm'
        &&& "callProblemEcho"@[11] == 'E'
        &&& "chatListArchive"@[1] == 'h'
        &&& "chatListArchive"@[10] == 'c'
        &&& "chatListArchive"@[11] == 'h'
        &&& "chatPermissions"@[1] == 'h'
        &&& "chatPermissions"@[10] == 's'
        &&& "chatPermissions"@[11] == 'i'
        &&& "chatTypePrivate"@[1] == 'h'
        &&& "chatTypePrivate"@[10] == 'i'
        &&& "chatTypePrivate"@[11] == 'v'
        &&& "fileTypeSticker"@[1] == 'i'
        &&& "fileTypeSticker"@[10] == 'i'
        &&& "fileTypeSticker"@[11] == 'c'
        &&& "fileTypeUnknown"@[1] == 'i'
        &&& "fileTypeUnknown"@[10] == 'k'
        &&& "fileTypeUnknown"@[11] == 'n'
        &&& "inputFileRemote"@[1] == 'n'
        &&& "inputFileRemote"@[10] == 'e'
        &&& "inputFileRemote"@[11] == 'm'
        &&& "jsonValueNumber"@[1] == 's'
        &&& "jsonValueNumber"@[10] == 'u'
        &&& "jsonValueNumber"@[11] == 'm'
        &&& "jsonValueObject"@[1] == 's'
        &&& "jsonValueObject"@[10] == 'b'
        &&& "jsonValueObject"@[11] == 'j'
        &&& "jsonValueString"@[1] == 's'
        &&& "jsonValueString"@[10] == 't'
        &&& "jsonValueString"@[11] == 'r'
        &&& "messageDocument"@[1] == 'e'
        &&& "messageDocument"@[10] == 'u'
        &&& "messageDocument"@[11] == 'm'
        &&& "messageLinkInfo"@[1] == 'e'
        &&& "messageLinkInfo"@[10] == 'k'
        &&& "messageLinkInfo"@[11] == 'I'
        &&& "messageLocation"@[1] == 'e'
        &&& "messageLocation"@[10] == 'a'
        &&& "messageLocation"@[11] == 't'
        &&& "networkTypeNone"@[1] == 'e'
        &&& "networkTypeNone"@[10] == 'e'
        &&& "networkTypeNone"@[11] == 'N'
        &&& "networkTypeWiFi"@[1] == 'e'
        &&& "networkTypeWiFi"@[10] == 'e'
        &&& "networkTypeWiFi"@[11] == 'W'
        &&& "pageBlockAnchor"@[1] == 'a'
        &&& "pageBlockAnchor"@[10] == 'n'
        &&& "pageBlockAnchor"@[11] == 'c'
        &&& "pageBlockFooter"@[1] == 'a'
        &&& "pageBlockFooter"@[10] == 'o'
        &&& "pageBlockFooter"@[11] == 'o'
        &&& "pageBlockHeader"@[1] == 'a'
        &&& "pageBlockHeader"@[10] == 'e'
        &&& "pageBlockHeader"@[11] == 'a'
        &&& "pageBlockKicker"@[1] == 'a'
        &&& "pageBlockKicker"@[10] == 'i'
        &&& "pageBlockKicker"@[11] == 'c'
        &&& "personalDetails"@[1] == 'e'
        &&& "personalDetails"@[10] == 't'
        &&& "personalDetails"@[11] == 'a'
        &&& "pollTypeRegular"@[1] == 'o'
        &&& "pollTypeRegular"@[10] == 'g'
        &&& "pollTypeRegular"@[11] == 'u'
        &&& "proxyTypeSocks5"@[1] == 'r'
        &&& "proxyTypeSocks5"@[10] == 'o'
        &&& "proxyTypeSocks5"@[11] == 'c'
        &&& "tdlibParameters"@[1] == 'd'
        &&& "tdlibParameters"@[10] == 'e'
        &&& "tdlibParameters"@[11] == 't'
        &&& "updateChatOrder"@[1] == 'p'
        &&& "updateChatOrder"@[10] == 'O'
        &&& "updateChatOrder"@[11] == 'r'
        &&& "updateChatPhoto"@[1] == 'p'
        &&& "updateChatPhoto"@[10] == 'P'
        &&& "updateChatPhoto"@[11] == 'h'
        &&& "updateChatTitle"@[1] == 'p'
        &&& "updateChatTitle"@[10] == 'T'
        &&& "updateChatTitle"@[11] == 'i'
        &&& "userStatusEmpty"@[1] == 's'
        &&& "userStatusEmpty"@[10] == 'E'
        &&& "userStatusEmpty"@[11] == 'm'
        &&& "userTypeDeleted"@[1] == 's'
        &&& "userTypeDeleted"@[10] == 'l'
        &&& "userTypeDeleted"@[11] == 'e'
        &&& "userTypeRegular"@[1] == 's'
        &&& "userTypeRegular"@[10] == 'g'
        &&& "userTypeRegular"@[11] == 'u'
        &&& "userTypeUnknown"@[1] == 's'
        &&& "userTypeUnknown"@[10] == 'k'
        &&& "userTypeUnknown"@[11] == 'n'
    }

    /// What tells apart the discriminators of 15 characters.
    proof fn tags_spelled_15()
        ensures
            Self::spelled_15(),
    {
        reveal_strlit("callProblemEcho");
        reveal_strlit("chatListArchive");
        reveal_strlit("chatPermissions");
        reveal_strlit("chatTypePrivate");
        reveal_strlit("fileTypeSticker");
        reveal_strlit("fileTypeUnknown");
        reveal_strlit("inputFileRemote");
        reveal_strlit("jsonValueNumber");
        reveal_strlit("jsonValueObject");
        reveal_strlit("jsonValueString");
        reveal_strlit("messageDocument");
        reveal_strlit("messageLinkInfo");
        reveal_strlit("messageLocation");
        reveal_strlit("networkTypeNone");
        reveal_strlit("networkTypeWiFi");
        reveal_strlit("pageBlockAnchor");
        reveal_strlit("pageBlockFooter");
        reveal_strlit("pageBlockHeader");
        reveal_strlit("pageBlockKicker");
        reveal_strlit("personalDetails");
        reveal_strlit("pollTypeRegular");
        reveal_strlit("proxyTypeSocks5");
        reveal_strlit("tdlibParameters");
        reveal_strlit("updateChatOrder");
        reveal_strlit("updateChatPhoto");
        reveal_strlit("updateChatTitle");
        reveal_strlit("userStatusEmpty");
        reveal_strlit("userTypeDeleted");
        reveal_strlit("userTypeRegular");
        reveal_strlit("userTypeUnknown");
    }

    spec fn spelled_16() -> bool {
        &&& "callProblemNoise"@[2] == 'l'
        &&& "callProblemNoise"@[11] == 'N'
        &&& "callProblemNoise"@[12] == 'o'
        &&& "callStatePending"@[2] == 'l'
        &&& "callStatePending"@[11] == 'n'
        &&& "callStatePending"@[12] == 'd'
        &&& "chatActionCancel"@[2] == 'a'
        &&& "chatActionCancel"@[11] == 'a'
        &&& "chatActionCancel"@[12] == 'n'
        &&& "chatActionTyping"@[2] == 'a'
        &&& "chatActionTyping"@[11] == 'y'
        &&& "chatActionTyping"@[12] == 'p'
        &&& "connectedWebsite"@[2] == 'n'
        &&& "connectedWebsite"@[11] == 'b'
        &&& "connectedWebsite"@[12] == 's'
        &&& "fileTypeDocument"@[2] == 'l'
        &&& "fileTypeDocument"@[11] == 'u'
        &&& "fileTypeDocument"@[12] == 'm'
        &&& "identityDocument"@[2] == 'e'
        &&& "identityDocument"@[11] == 'u'
        &&& "identityDocument"@[12] == 'm'
        &&& "importedContacts"@[2] == 'p'
        &&& "importedContacts"@[11] == 't'
        &&& "importedContacts"@[12] == 'a'
        &&& "inputMessageGame"@[2] == 'p'
        &&& "inputMessageGame"@[11] == 'e'
        &&& "inputMessageGame"@[12] == 'G'
        &&& "inputMessagePoll"@[2] == 'p'
        &&& "inputMessagePoll"@[11] == 'e'
        &&& "inputMessagePoll"@[12] == 'P'
        &&& "inputMessageText"@[2] == 'p'
        &&& "inputMessageText"@[11] == 'e'
        &&& "inputMessageText"@[12] == 'T'
        &&& "jsonObjectMember"@[2] == 'o'
        &&& "jsonObjectMember"@[11] == 'e'
        &&& "jsonObjectMember"@[12] == 'm'
        &&& "jsonValueBoolean"@[2] == 'o'
        &&& "jsonValueBoolean"@[11] == 'o'
        &&& "jsonValueBoolean"@[12] == 'l'
        &&& "labeledPricePart"@[2] == 'b'
        &&& "labeledPricePart"@[11] == 'e'
        &&& "labeledPricePart"@[12] == 'P'
        &&& "languagePackInfo"@[2] == 'n'
        &&& "languagePackInfo"@[11] == 'k'
        &&& "languagePackInfo"@[12] == 'I'
        &&& "logStreamDefault"@[2] == 'g'
        &&& "logStreamDefault"@[11] == 'f'
        &&& "logStreamDefault"@[12] == 'a'
        &&& "loginUrlInfoOpen"@[2] == 'g'
        &&& "loginUrlInfoOpen"@[11] == 'o'
        &&& "loginUrlInfoOpen"@[12] == 'O'
        &&& "messageAnimation"@[2] == 's'
        &&& "messageAnimation"@[11] == 'a'
        &&& "messageAnimation"@[12] == 't'
        &&& "messageGameScore"@[2] == 's'
        &&& "messageGameScore"@[11] == 'S'
        &&& "messageGameScore"@[12] == 'c'
        &&& "messageVideoNote"@[2] == 's'
        &&& "messageVideoNote"@[11] == 'o'
        &&& "messageVideoNote"@[12] == 'N'
        &&& "messageVoiceNote"@[2] == 's'
        &&& "messageVoiceNote"@[11] == 'e'
        &&& "messageVoiceNote"@[12] == 'N'
        &&& "networkTypeOther"@[2] == 't'
        &&& "networkTypeOther"@[11] == 'O'
        &&& "networkTypeOther"@[12] == 't'
        &&& "optionValueEmpty"@[2] == 't'
        &&& "optionValueEmpty"@[11] == 'E'
        &&& "optionValueEmpty"@[12] == 'm'
        &&& "pageBlockCaption"@[2] == 'g'
        &&& "pageBlockCaption"@[11] == 'p'
        &&& "pageBlockCaption"@[12] == 't'
        &&& "pageBlockCollage"@[2] == 'g'
        &&& "pageBlockCollage"@[11] == 'l'
        &&& "pageBlockCollage"@[12] == 'l'
        &&& "pageBlockDetails"@[2] == 'g'
        &&& "pageBlockDetails"@[11] == 't'
        &&& "pageBlockDetails"@[12] == 'a'
        &&& "pageBlockDivider"@[2] == 'g'
        &&& "pageBlockDivider"@[11] == 'v'
        &&& "pageBlockDivider"@[12] == 'i'
        &&& "passportElements"@[2] == 's'
        &&& "passportElements"@[11] == 'm'
        &&& "passportElements"@[12] == 'e'
        &&& "personalDocument"@[2] == 'r'
        &&& "personalDocument"@[11] == 'u'
        &&& "personalDocument"@[12] == 'm'
        &&& "proxyTypeMtproto"@[2] == 'o'
        &&& "proxyTypeMtproto"@[11] == 'p'
        &&& "proxyTypeMtproto"@[12] == 'r'
        &&& "savedCredentials"@[2] == 'v'
        &&& "savedCredentials"@[11] == 't'
        &&& "savedCredentials"@[12] == 'i'
        &&& "testVectorString"@[2] == 's'
        &&& "testVectorString"@[11] == 't'
        &&& "testVectorString"@[12] == 'r'
        &&& "updateBasicGroup"@[2] == 'd'
        &&& "updateBasicGroup"@[11] == 'G'
        &&& "updateBasicGroup"@[12] == 'r'
        &&& "updateNewMessage"@[2] == 'd'
        &&& "updateNewMessage"@[11] == 's'
        &&& "updateNewMessage"@[12] == 's'
        &&& "updatePollAnswer"@[2] == 'd'
        &&& "updatePollAnswer"@[11] == 'n'
        &&& "updatePollAnswer"@[12] == 's'
        &&& "updateSecretChat"@[2] == 'd'
        &&& "updateSecretChat"@[11] == 't'
        &&& "updateSecretChat"@[12] == 'C'
        &&& "updateSupergroup"@[2] == 'd'
        &&& "updateSupergroup"@[11] == 'g'
        &&& "updateSupergroup"@[12] == 'r'
        &&& "updateUserStatus"@[2] == 'd'
        &&& "updateUserStatus"@[11] == 't'
        &&& "updateUserStatus"@[12] == 'a'
        &&& "userProfilePhoto"@[2] == 'e'
        &&& "userProfilePhoto"@[11] == 'P'
        &&& "userProfilePhoto"@[12] == 'h'
        &&& "userStatusOnline"@[2] == 'e'
        &&& "userStatusOnline"@[11] == 'n'
        &&& "userStatusOnline"@[12] == 'l'
    }

    /// What tells apart the discriminators of 16 characters.
    proof fn tags_spelled_16()
        ensures
            Self::spelled_16(),
    {
        reveal_strlit("callProblemNoise");
        reveal_strlit("callStatePending");
        reveal_strlit("chatActionCancel");
        reveal_strlit("chatActionTyping");
        reveal_strlit("connectedWebsite");
        reveal_strlit("fileTypeDocument");
        reveal_strlit("identityDocument");
        reveal_strlit("importedContacts");
        reveal_strlit("inputMessageGame");
        reveal_strlit("inputMessagePoll");
        reveal_strlit("inputMessageText");
        reveal_strlit("jsonObjectMember");
        reveal_strlit("jsonValueBoolean");
        reveal_strlit("labeledPricePart");
        reveal_strlit("languagePackInfo");
        reveal_strlit("logStreamDefault");
        reveal_strlit("loginUrlInfoOpen");
        reveal_strlit("messageAnimation");
        reveal_strlit("messageGameScore");
        reveal_strlit("messageVideoNote");
        reveal_strlit("messageVoiceNote");
        reveal_strlit("networkTypeOther");
        reveal_strlit("optionValueEmpty");
        reveal_strlit("pageBlockCaption");
        reveal_strlit("pageBlockCollage");
        reveal_strlit("pageBlockDetails");
        reveal_strlit("pageBlockDivider");
        reveal_strlit("passportElements");
        reveal_strlit("personalDocument");
        reveal_strlit("proxyTypeMtproto");
        reveal_strlit("savedCredentials");
        reveal_strlit("testVectorString");
        reveal_strlit("updateBasicGroup");
        reveal_strlit("updateNewMessage");
        reveal_strlit("updatePollAnswer");
        reveal_strlit("updateSecretChat");
        reveal_strlit("updateSupergroup");
        reveal_strlit("updateUserStatus");
        reveal_strlit("userProfilePhoto");
        reveal_strlit("userStatusOnline");
    }

    spec fn spelled_17() -> bool {
        &&& "chatAdministrator"@[0] == 'c'
        &&& "chatAdministrator"@[11] == 't'
        &&& "chatAdministrator"@[12] == 'r'
        &&& "chatAdministrator"@[14] == 't'
        &&& "connectedWebsites"@[0] == 'c'
        &&& "connectedWebsites"@[11] == 'b'
        &&& "connectedWebsites"@[12] == 's'
        &&& "connectedWebsites"@[14] == 't'
        &&& "fileTypeAnimation"@[0] == 'f'
        &&& "fileTypeAnimation"@[11] == 'm'
        &&& "fileTypeAnimation"@[12] == 'a'
        &&& "fileTypeAnimation"@[14] == 'i'
        &&& "fileTypeThumbnail"@[0] == 'f'
        &&& "fileTypeThumbnail"@[11] == 'm'
        &&& "fileTypeThumbnail"@[12] == 'b'
        &&& "fileTypeThumbnail"@[14] == 'a'
        &&& "fileTypeVideoNote"@[0] == 'f'
        &&& "fileTypeVideoNote"@[11] == 'e'
        &&& "fileTypeVideoNote"@[12] == 'o'
        &&& "fileTypeVideoNote"@[14] == 'o'
        &&& "fileTypeVoiceNote"@[0] == 'f'
        &&& "fileTypeVoiceNote"@[11] == 'c'
        &&& "fileTypeVoiceNote"@[12] == 'e'
        &&& "fileTypeVoiceNote"@[14] == 'o'
        &&& "fileTypeWallpaper"@[0] == 'f'
        &&& "fileTypeWallpaper"@[11] == 'l'
        &&& "fileTypeWallpaper"@[12] == 'p'
        &&& "fileTypeWallpaper"@[14] == 'p'
        &&& "inputMessageAudio"@[0] == 'i'
        &&& "inputMessageAudio"@[11] == 'e'
        &&& "inputMessageAudio"@[12] == 'A'
        &&& "inputMessageAudio"@[14] == 'd'
        &&& "inputMessagePhoto"@[0] == 'i'
        &&& "inputMessagePhoto"@[11] == 'e'
        &&& "inputMessagePhoto"@[12] == 'P'
        &&& "inputMessagePhoto"@[14] == 'o'
        &&& "inputMessageVenue"@[0] == 'i'
        &&& "inputMessageVenue"@[11] == 'e'
        &&& "inputMessageVenue"@[12] == 'V'
        &&& "inputMessageVenue"@[14] == 'n'
        &&& "inputMessageVideo"@[0] == 'i'
        &&& "inputMessageVideo"@[11] == 'e'
        &&& "inputMessageVideo"@[12] == 'V'
        &&& "inputMessageVideo"@[14] == 'd'
        &&& "logVerbosityLevel"@[0] == 'l'
        &&& "logVerbosityLevel"@[11] == 'y'
        &&& "logVerbosityLevel"@[12] == 'L'
        &&& "logVerbosityLevel"@[14] == 'v'
        &&& "maskPointForehead"@[0] == 'm'
        &&& "maskPointForehead"@[11] == 'r'
        &&& "maskPointForehead"@[12] == 'e'
        &&& "maskPointForehead"@[14] == 'e'
        &&& "messageChatSetTtl"@[0] == 'm'
        &&& "messageChatSetTtl"@[11] == 'S'
        &&& "messageChatSetTtl"@[12] == 'e'
        &&& "messageChatSetTtl"@[14] == 'T'
        &&& "messagePinMessage"@[0] == 'm'
        &&& "messagePinMessage"@[11] == 'e'
        &&& "messagePinMessage"@[12] == 's'
        &&& "messagePinMessage"@[14] == 'a'
        &&& "networkStatistics"@[0] == 'n'
        &&& "networkStatistics"@[11] == 'i'
        &&& "networkStatistics"@[12] == 's'
        &&& "networkStatistics"@[14] == 'i'
        &&& "networkTypeMobile"@[0] == 'n'
        &&& "networkTypeMobile"@[11] == 'M'
        &&& "networkTypeMobile"@[12] == 'o'
        &&& "networkTypeMobile"@[14] == 'i'
        &&& "notificationGroup"@[0] == 'n'
        &&& "notificationGroup"@[11] == 'n'
        &&& "notificationGroup"@[12] == 'G'
        &&& "notificationGroup"@[14] == 'o'
        &&& "optionValueString"@[0] == 'o'
        &&& "optionValueString"@[11] == 'S'
        &&& "optionValueString"@[12] == 't'
        &&& "optionValueString"@[14] == 'i'
        &&& "pageBlockChatLink"@[0] == 'p'
        &&& "pageBlockChatLink"@[11] == 'a'
        &&& "pageBlockChatLink"@[12] == 't'
        &&& "pageBlockChatLink"@[14] == 'i'
        &&& "pageBlockEmbedded"@[0] == 'p'
        &&& "pageBlockEmbedded"@[11] == 'b'
        &&& "pageBlockEmbedded"@[12] == 'e'
        &&& "pageBlockEmbedded"@[14] == 'd'
        &&& "pageBlockListItem"@[0] == 'p'
        &&& "pageBlockListItem"@[11] == 's'
        &&& "pageBlockListItem"@[12] == 't'
        &&& "pageBlockListItem"@[14] == 't'
        &&& "pageBlockSubtitle"@[0] == 'p'
        &&& "pageBlockSubtitle"@[11] == 'b'
        &&& "pageBlockSubtitle"@[12] == 't'
        &&& "pageBlockSubtitle"@[14] == 't'
        &&& "publicMessageLink"@[0] == 'p'
        &&& "publicMessageLink"@[11] == 'g'
        &&& "publicMessageLink"@[12] == 'e'
        &&& "publicMessageLink"@[14] == 'i'
        &&& "richTextSubscript"@[0] == 'r'
        &&& "richTextSubscript"@[11] == 's'
        &&& "richTextSubscript"@[12] == 'c'
        &&& "richTextSubscript"@[14] == 'i'
        &&& "richTextUnderline"@[0] == 'r'
        &&& "richTextUnderline"@[11] == 'e'
        &&& "richTextUnderline"@[12] == 'r'
        &&& "richTextUnderline"@[14] == 'i'
        &&& "storageStatistics"@[0] == 's'
        &&& "storageStatistics"@[11] == 'i'
        &&& "storageStatistics"@[12] == 's'
        &&& "storageStatistics"@[14] == 'i'
        &&& "textEntityTypePre"@[0] == 't'
        &&& "textEntityTypePre"@[11] == 'y'
        &&& "textEntityTypePre"@[12] == 'p'
        &&& "textEntityTypePre"@[14] == 'P'
        &&& "textEntityTypeUrl"@[0] == 't'
        &&& "textEntityTypeUrl"@[11] == 'y'
        &&& "textEntityTypeUrl"@[12] == 'p'
        &&& "textEntityTypeUrl"@[14] == 'U'
        &&& "textParseModeHTML"@[0] == 't'
        &&& "textParseModeHTML"@[11] == 'd'
        &&& "textParseModeHTML"@[12] == 'e'
        &&& "textParseModeHTML"@[14] == 'T'
        &&& "updateUsersNearby"@[0] == 'u'
        &&& "updateUsersNearby"@[11] == 'N'
        &&& "updateUsersNearby"@[12] == 'e'
        &&& "updateUsersNearby"@[14] == 'r'
        &&& "userProfilePhotos"@[0] == 'u'
        &&& "userProfilePhotos"@[11] == 'P'
        &&& "userProfilePhotos"@[12] == 'h'
        &&& "userProfilePhotos"@[14] == 't'
        &&& "userStatusOffline"@[0] == 'u'
        &&& "userStatusOffline"@[11] == 'f'
        &&& "userStatusOffline"@[12] == 'f'
        &&& "userStatusOffline"@[14] == 'i'
    }

    /// What tells apart the discriminators of 17 characters.
    proof fn tags_spelled_17()
        ensures
            Self::spelled_17(),
    {
        reveal_strlit("chatAdministrator");
        reveal_strlit("connectedWebsites");
        reveal_strlit("fileTypeAnimation");
        reveal_strlit("fileTypeThumbnail");
        reveal_strlit("fileTypeVideoNote");
        reveal_strlit("fileTypeVoiceNote");
        reveal_strlit("fileTypeWallpaper");
        reveal_strlit("inputMessageAudio");
        reveal_strlit("inputMessagePhoto");
        reveal_strlit("inputMessageVenue");
        reveal_strlit("inputMessageVideo");
        reveal_strlit("logVerbosityLevel");
        reveal_strlit("maskPointForehead");
        reveal_strlit("messageChatSetTtl");
        reveal_strlit("messagePinMessage");
        reveal_strlit("networkStatistics");
        reveal_strlit("networkTypeMobile");
        reveal_strlit("notificationGroup");
        reveal_strlit("optionValueString");
        reveal_strlit("pageBlockChatLink");
        reveal_strlit("pageBlockEmbedded");
        reveal_strlit("pageBlockListItem");
        reveal_strlit("pageBlockSubtitle");
        reveal_strlit("publicMessageLink");
        reveal_strlit("richTextSubscript");
        reveal_strlit("richTextUnderline");
        reveal_strlit("storageStatistics");
        reveal_strlit("textEntityTypePre");
        reveal_strlit("textEntityTypeUrl");
        reveal_strlit("textParseModeHTML");
        reveal_strlit("updateUsersNearby");
        reveal_strlit("userProfilePhotos");
        reveal_strlit("userStatusOffline");
    }

    spec fn spelled_18() -> bool {
        &&& "backgroundTypeFill"@[0] == 'b'
        &&& "backgroundTypeFill"@[10] == 'T'
        &&& "backgroundTypeFill"@[14] == 'F'
        &&& "basicGroupFullInfo"@[0] == 'b'
        &&& "basicGroupFullInfo"@[10] == 'F'
        &&& "basicGroupFullInfo"@[14] == 'I'
        &&& "callProblemDropped"@[0] == 'c'
        &&& "callProblemDropped"@[10] == 'm'
        &&& "callProblemDropped"@[14] == 'p'
        &&& "callStateDiscarded"@[0] == 'c'
        &&& "callStateDiscarded"@[10] == 'i'
        &&& "callStateDiscarded"@[14] == 'r'
        &&& "callStateHangingUp"@[0] == 'c'
        &&& "callStateHangingUp"@[10] == 'a'
        &&& "callStateHangingUp"@[14] == 'n'
        &&& "chatAdministrators"@[0] == 'c'
        &&& "chatAdministrators"@[10] == 's'
        &&& "chatAdministrators"@[14] == 't'
        &&& "chatInviteLinkInfo"@[0] == 'c'
        &&& "chatInviteLinkInfo"@[10] == 'L'
        &&& "chatInviteLinkInfo"@[14] == 'I'
        &&& "chatTypeBasicGroup"@[0] == 'c'
        &&& "chatTypeBasicGroup"@[10] == 's'
        &&& "chatTypeBasicGroup"@[14] == 'r'
        &&& "chatTypeSupergroup"@[0] == 'c'
        &&& "chatTypeSupergroup"@[10] == 'p'
        &&& "chatTypeSupergroup"@[14] == 'r'
        &&& "databaseStatistics"@[0] == 'd'
        &&& "databaseStatistics"@[10] == 'a'
        &&& "databaseStatistics"@[14] == 't'
        &&& "deviceTokenWebPush"@[0] == 'd'
        &&& "deviceTokenWebPush"@[10] == 'n'
        &&& "deviceTokenWebPush"@[14] == 'P'
        &&& "inlineQueryResults"@[0] == 'i'
        &&& "inlineQueryResults"@[10] == 'y'
        &&& "inlineQueryResults"@[14] == 'u'
        &&& "inputFileGenerated"@[0] == 'i'
        &&& "inputFileGenerated"@[10] == 'e'
        &&& "inputFileGenerated"@[14] == 'a'
        &&& "languagePackString"@[0] == 'l'
        &&& "languagePackString"@[10] == 'c'
        &&& "languagePackString"@[14] == 'r'
        &&& "messageForwardInfo"@[0] == 'm'
        &&& "messageForwardInfo"@[10] == 'w'
        &&& "messageForwardInfo"@[14] == 'I'
        &&& "messageUnsupported"@[0] == 'm'
        &&& "messageUnsupported"@[10] == 'u'
        &&& "messageUnsupported"@[14] == 'r'
        &&& "optionValueBoolean"@[0] == 'o'
        &&& "optionValueBoolean"@[10] == 'e'
        &&& "optionValueBoolean"@[14] == 'l'
        &&& "optionValueInteger"@[0] == 'o'
        &&& "optionValueInteger"@[10] == 'e'
        &&& "optionValueInteger"@[14] == 'e'
        &&& "pageBlockAnimation"@[0] == 'p'
        &&& "pageBlockAnimation"@[10] == 'n'
        &&& "pageBlockAnimation"@[14] == 't'
        &&& "pageBlockParagraph"@[0] == 'p'
        &&& "pageBlockParagraph"@[10] == 'a'
        &&& "pageBlockParagraph"@[14] == 'r'
        &&& "pageBlockPullQuote"@[0] == 'p'
        &&& "pageBlockPullQuote"@[10] == 'u'
        &&& "pageBlockPullQuote"@[14] == 'u'
        &&& "pageBlockSlideshow"@[0] == 'p'
        &&& "pageBlockSlideshow"@[10] == 'l'
        &&& "pageBlockSlideshow"@[14] == 's'
        &&& "pageBlockSubheader"@[0] == 'p'
        &&& "pageBlockSubheader"@[10] == 'u'
        &&& "pageBlockSubheader"@[14] == 'a'
        &&& "pageBlockTableCell"@[0] == 'p'
        &&& "pageBlockTableCell"@[10] == 'a'
        &&& "pageBlockTableCell"@[14] == 'C'
        &&& "pageBlockVoiceNote"@[0] == 'p'
        &&& "pageBlockVoiceNote"@[10] == 'o'
        &&& "pageBlockVoiceNote"@[14] == 'N'
        &&& "sendMessageOptions"@[0] == 's'
        &&& "sendMessageOptions"@[10] == 'e'
        &&& "sendMessageOptions"@[14] == 'i'
        &&& "supergroupFullInfo"@[0] == 's'
        &&& "supergroupFullInfo"@[10] == 'F'
        &&& "supergroupFullInfo"@[14] == 'I'
        &&& "textEntityTypeBold"@[0] == 't'
        &&& "textEntityTypeBold"@[10] == 'T'
        &&& "textEntityTypeBold"@[14] == 'B'
        &&& "textEntityTypeCode"@[0] == 't'
        &&& "textEntityTypeCode"@[10] == 'T'
        &&& "textEntityTypeCode"@[14] == 'C'
        &&& "updateChatChatList"@[0] == 'u'
        &&& "updateChatChatList"@[10] == 'C'
        &&& "updateChatChatList"@[14] == 'L'
        &&& "updateChatIsPinned"@[0] == 'u'
        &&& "updateChatIsPinned"@[10] == 'I'
        &&& "updateChatIsPinned"@[14] == 'n'
        &&& "updateMessageViews"@[0] == 'u'
        &&& "updateMessageViews"@[10] == 'a'
        &&& "updateMessageViews"@[14] == 'i'
        &&& "updateNotification"@[0] == 'u'
        &&& "updateNotification"@[10] == 'f'
        &&& "updateNotification"@[14] == 't'
        &&& "updateUserFullInfo"@[0] == 'u'
        &&& "updateUserFullInfo"@[10] == 'F'
        &&& "updateUserFullInfo"@[14] == 'I'
        &&& "userStatusLastWeek"@[0] == 'u'
        &&& "userStatusLastWeek"@[10] == 'L'
        &&& "userStatusLastWeek"@[14] == 'W'
        &&& "userStatusRecently"@[0] == 'u'
        &&& "userStatusRecently"@[10] == 'R'
        &&& "userStatusRecently"@[14] == 'n'
        &&& "validatedOrderInfo"@[0] == 'v'
        &&& "validatedOrderInfo"@[10] == 'r'
        &&& "validatedOrderInfo"@[14] == 'I'
        &&& "webPageInstantView"@[0] == 'w'
        &&& "webPageInstantView"@[10] == 't'
        &&& "webPageInstantView"@[14] == 'V'
    }

    /// What tells apart the discriminators of 18 characters.
    proof fn tags_spelled_18()
        ensures
            Self::spelled_18(),
    {
        reveal_strlit("backgroundTypeFill");
        reveal_strlit("basicGroupFullInfo");
        reveal_strlit("callProblemDropped");
        reveal_strlit("callStateDiscarded");
        reveal_strlit("callStateHangingUp");
        reveal_strlit("chatAdministrators");
        reveal_strlit("chatInviteLinkInfo");
        reveal_strlit("chatTypeBasicGroup");
        reveal_strlit("chatTypeSupergroup");
        reveal_strlit("databaseStatistics");
        reveal_strlit("deviceTokenWebPush");
        reveal_strlit("inlineQueryResults");
        reveal_strlit("inputFileGenerated");
        reveal_strlit("languagePackString");
        reveal_strlit("messageForwardInfo");
        reveal_strlit("messageUnsupported");
        reveal_strlit("optionValueBoolean");
        reveal_strlit("optionValueInteger");
        reveal_strlit("pageBlockAnimation");
        reveal_strlit("pageBlockParagraph");
        reveal_strlit("pageBlockPullQuote");
        reveal_strlit("pageBlockSlideshow");
        reveal_strlit("pageBlockSubheader");
        reveal_strlit("pageBlockTableCell");
        reveal_strlit("pageBlockVoiceNote");
        reveal_strlit("sendMessageOptions");
        reveal_strlit("supergroupFullInfo");
        reveal_strlit("textEntityTypeBold");
        reveal_strlit("textEntityTypeCode");
        reveal_strlit("updateChatChatList");
        reveal_strlit("updateChatIsPinned");
        reveal_strlit("updateMessageViews");
        reveal_strlit("updateNotification");
        reveal_strlit("updateUserFullInfo");
        reveal_strlit("userStatusLastWeek");
        reveal_strlit("userStatusRecently");
        reveal_strlit("validatedOrderInfo");
        reveal_strlit("webPageInstantView");
    }

    spec fn spelled_19() -> bool {
        &&& "backgroundFillSolid"@[0] == 'b'
        &&& "backgroundFillSolid"@[14] == 'S'
        &&& "callbackQueryAnswer"@[0] == 'c'
        &&& "callbackQueryAnswer"@[14] == 'n'
        &&& "chatEventLogFilters"@[0] == 'c'
        &&& "chatEventLogFilters"@[14] == 'l'
        &&& "chatEventMemberLeft"@[0] == 'c'
        &&& "chatEventMemberLeft"@[14] == 'r'
        &&& "customRequestResult"@[0] == 'c'
        &&& "customRequestResult"@[14] == 'e'
        &&& "inputCredentialsNew"@[0] == 'i'
        &&& "inputCredentialsNew"@[14] == 'l'
        &&& "inputMessageContact"@[0] == 'i'
        &&& "inputMessageContact"@[14] == 'n'
        &&& "inputMessageInvoice"@[0] == 'i'
        &&& "inputMessageInvoice"@[14] == 'v'
        &&& "inputMessageSticker"@[0] == 'i'
        &&& "inputMessageSticker"@[14] == 'i'
        &&& "languagePackStrings"@[0] == 'l'
        &&& "languagePackStrings"@[14] == 'r'
        &&& "messageExpiredPhoto"@[0] == 'm'
        &&& "messageExpiredPhoto"@[14] == 'P'
        &&& "messageExpiredVideo"@[0] == 'm'
        &&& "messageExpiredVideo"@[14] == 'V'
        &&& "pageBlockAuthorDate"@[0] == 'p'
        &&& "pageBlockAuthorDate"@[14] == 'r'
        &&& "pageBlockBlockQuote"@[0] == 'p'
        &&& "pageBlockBlockQuote"@[14] == 'Q'
        &&& "richTextPhoneNumber"@[0] == 'r'
        &&& "richTextPhoneNumber"@[14] == 'u'
        &&& "richTextSuperscript"@[0] == 'r'
        &&& "richTextSuperscript"@[14] == 'c'
        &&& "testVectorIntObject"@[0] == 't'
        &&& "testVectorIntObject"@[14] == 'b'
        &&& "topChatCategoryBots"@[0] == 't'
        &&& "topChatCategoryBots"@[14] == 'y'
        &&& "updateChatActionBar"@[0] == 'u'
        &&& "updateChatActionBar"@[14] == 'o'
        &&& "updateChatReadInbox"@[0] == 'u'
        &&& "updateChatReadInbox"@[14] == 'I'
        &&& "updateMessageEdited"@[0] == 'u'
        &&& "updateMessageEdited"@[14] == 'd'
        &&& "userStatusLastMonth"@[0] == 'u'
        &&& "userStatusLastMonth"@[14] == 'M'
    }

    /// What tells apart the discriminators of 19 characters.
    proof fn tags_spelled_19()
        ensures
            Self::spelled_19(),
    {
        reveal_strlit("backgroundFillSolid");
        reveal_strlit("callbackQueryAnswer");
        reveal_strlit("chatEventLogFilters");
        reveal_strlit("chatEventMemberLeft");
        reveal_strlit("customRequestResult");
        reveal_strlit("inputCredentialsNew");
        reveal_strlit("inputMessageContact");
        reveal_strlit("inputMessageInvoice");
        reveal_strlit("inputMessageSticker");
        reveal_strlit("languagePackStrings");
        reveal_strlit("messageExpiredPhoto");
        reveal_strlit("messageExpiredVideo");
        reveal_strlit("pageBlockAuthorDate");
        reveal_strlit("pageBlockBlockQuote");
        reveal_strlit("richTextPhoneNumber");
        reveal_strlit("richTextSuperscript");
        reveal_strlit("testVectorIntObject");
        reveal_strlit("topChatCategoryBots");
        reveal_strlit("updateChatActionBar");
        reveal_strlit("updateChatReadInbox");
        reveal_strlit("updateMessageEdited");
        reveal_strlit("userStatusLastMonth");
    }

    spec fn spelled_20() -> bool {
        &&& "autoDownloadSettings"@[6] == 'w'
        &&& "autoDownloadSettings"@[11] == 'd'
        &&& "autoDownloadSettings"@[15] == 't'
        &&& "chatEventPollStopped"@[6] == 'e'
        &&& "chatEventPollStopped"@[11] == 'l'
        &&& "chatEventPollStopped"@[15] == 'o'
        &&& "chatMemberStatusLeft"@[6] == 'm'
        &&& "chatMemberStatusLeft"@[11] == 't'
        &&& "chatMemberStatusLeft"@[15] == 's'
        &&& "chatReportReasonSpam"@[6] == 'p'
        &&& "chatReportReasonSpam"@[11] == 'e'
        &&& "chatReportReasonSpam"@[15] == 'n'
        &&& "connectionStateReady"@[6] == 't'
        &&& "connectionStateReady"@[11] == 't'
        &&& "connectionStateReady"@[15] == 'R'
        &&& "deviceTokenApplePush"@[6] == 'T'
        &&& "deviceTokenApplePush"@[11] == 'A'
        &&& "deviceTokenApplePush"@[15] == 'e'
        &&& "deviceTokenTizenPush"@[6] == 'T'
        &&& "deviceTokenTizenPush"@[11] == 'T'
        &&& "deviceTokenTizenPush"@[15] == 'n'
        &&& "encryptedCredentials"@[6] == 't'
        &&& "encryptedCredentials"@[11] == 'e'
        &&& "encryptedCredentials"@[15] == 't'
        &&& "fileTypeProfilePhoto"@[6] == 'p'
        &&& "fileTypeProfilePhoto"@[11] == 'f'
        &&& "fileTypeProfilePhoto"@[15] == 'P'
        &&& "inlineKeyboardButton"@[6] == 'K'
        &&& "inlineKeyboardButton"@[11] == 'a'
        &&& "inlineKeyboardButton"@[15] == 'u'
        &&& "inputBackgroundLocal"@[6] == 'a'
        &&& "inputBackgroundLocal"@[11] == 'o'
        &&& "inputBackgroundLocal"@[15] == 'L'
        &&& "inputMessageDocument"@[6] == 'e'
        &&& "inputMessageDocument"@[11] == 'e'
        &&& "inputMessageDocument"@[15] == 'u'
        &&& "inputMessageLocation"@[6] == 'e'
        &&& "inputMessageLocation"@[11] == 'e'
        &&& "inputMessageLocation"@[15] == 'a'
        &&& "messageChatUpgradeTo"@[6] == 'e'
        &&& "messageChatUpgradeTo"@[11] == 'U'
        &&& "messageChatUpgradeTo"@[15] == 'a'
        &&& "passportElementError"@[6] == 'r'
        &&& "passportElementError"@[11] == 'm'
        &&& "passportElementError"@[15] == 'E'
        &&& "recoveryEmailAddress"@[6] == 'r'
        &&& "recoveryEmailAddress"@[11] == 'i'
        &&& "recoveryEmailAddress"@[15] == 'd'
        &&& "richTextEmailAddress"@[6] == 'x'
        &&& "richTextEmailAddress"@[11] == 'i'
        &&& "richTextEmailAddress"@[15] == 'd'
        &&& "secretChatStateReady"@[6] == 'C'
        &&& "secretChatStateReady"@[11] == 't'
        &&& "secretChatStateReady"@[15] == 'R'
        &&& "tMeUrlTypeChatInvite"@[6] == 'T'
        &&& "tMeUrlTypeChatInvite"@[11] == 'h'
        &&& "tMeUrlTypeChatInvite"@[15] == 'n'
        &&& "tMeUrlTypeStickerSet"@[6] == 'T'
        &&& "tMeUrlTypeStickerSet"@[11] == 't'
        &&& "tMeUrlTypeStickerSet"@[15] == 'e'
        &&& "tMeUrlTypeSupergroup"@[6] == 'T'
        &&& "tMeUrlTypeSupergroup"@[11] == 'u'
        &&& "tMeUrlTypeSupergroup"@[15] == 'g'
        &&& "textEntityTypeItalic"@[6] == 't'
        &&& "textEntityTypeItalic"@[11] == 'y'
        &&& "textEntityTypeItalic"@[15] == 't'
        &&& "topChatCategoryCalls"@[6] == 't'
        &&& "topChatCategoryCalls"@[11] == 'g'
        &&& "topChatCategoryCalls"@[15] == 'C'
        &&& "topChatCategoryUsers"@[6] == 't'
        &&& "topChatCategoryUsers"@[11] == 'g'
        &&& "topChatCategoryUsers"@[15] == 'U'
        &&& "updateChatReadOutbox"@[6] == 'C'
        &&& "updateChatReadOutbox"@[11] == 'e'
        &&& "updateChatReadOutbox"@[15] == 'u'
        &&& "updateDeleteMessages"@[6] == 'D'
        &&& "updateDeleteMessages"@[11] == 'e'
        &&& "updateDeleteMessages"@[15] == 's'
        &&& "updateMessageContent"@[6] == 'M'
        &&& "updateMessageContent"@[11] == 'g'
        &&& "updateMessageContent"@[15] == 'n'
        &&& "updateNewCustomEvent"@[6] == 'N'
        &&& "updateNewCustomEvent"@[11] == 's'
        &&& "updateNewCustomEvent"@[15] == 'E'
        &&& "updateNewCustomQuery"@[6] == 'N'
        &&& "updateNewCustomQuery"@[11] == 's'
        &&& "updateNewCustomQuery"@[15] == 'Q'
        &&& "updateNewInlineQuery"@[6] == 'N'
        &&& "updateNewInlineQuery"@[11] == 'l'
        &&& "updateNewInlineQuery"@[15] == 'Q'
        &&& "updateRecentStickers"@[6] == 'R'
        &&& "updateRecentStickers"@[11] == 't'
        &&& "updateRecentStickers"@[15] == 'c'
        &&& "updateTermsOfService"@[6] == 'T'
        &&& "updateTermsOfService"@[11] == 'O'
        &&& "updateTermsOfService"@[15] == 'r'
        &&& "updateUserChatAction"@[6] == 'U'
        &&& "updateUserChatAction"@[11] == 'h'
        &&& "updateUserChatAction"@[15] == 'c'
    }

    /// What tells apart the discriminators of 20 characters.
    proof fn tags_spelled_20()
        ensures
            Self::spelled_20(),
    {
        reveal_strlit("autoDownloadSettings");
        reveal_strlit("chatEventPollStopped");
        reveal_strlit("chatMemberStatusLeft");
        reveal_strlit("chatReportReasonSpam");
        reveal_strlit("connectionStateReady");
        reveal_strlit("deviceTokenApplePush");
        reveal_strlit("deviceTokenTizenPush");
        reveal_strlit("encryptedCredentials");
        reveal_strlit("fileTypeProfilePhoto");
        reveal_strlit("inlineKeyboardButton");
        reveal_strlit("inputBackgroundLocal");
        reveal_strlit("inputMessageDocument");
        reveal_strlit("inputMessageLocation");
        reveal_strlit("messageChatUpgradeTo");
        reveal_strlit("passportElementError");
        reveal_strlit("recoveryEmailAddress");
        reveal_strlit("richTextEmailAddress");
        reveal_strlit("secretChatStateReady");
        reveal_strlit("tMeUrlTypeChatInvite");
        reveal_strlit("tMeUrlTypeStickerSet");
        reveal_strlit("tMeUrlTypeSupergroup");
        reveal_strlit("textEntityTypeItalic");
        reveal_strlit("topChatCategoryCalls");
        reveal_strlit("topChatCategoryUsers");
        reveal_strlit("updateChatReadOutbox");
        reveal_strlit("updateDeleteMessages");
        reveal_strlit("updateMessageContent");
        reveal_strlit("updateNewCustomEvent");
        reveal_strlit("updateNewCustomQuery");
        reveal_strlit("updateNewInlineQuery");
        reveal_strlit("updateRecentStickers");
        reveal_strlit("updateTermsOfService");
        reveal_strlit("updateUserChatAction");
    }

    spec fn spelled_21() -> bool {
        &&& "backgroundTypePattern"@[0] == 'b'
        &&& "backgroundTypePattern"@[12] == 'p'
        &&& "backgroundTypePattern"@[14] == 'P'
        &&& "chatEventMemberJoined"@[0] == 'c'
        &&& "chatEventMemberJoined"@[12] == 'b'
        &&& "chatEventMemberJoined"@[14] == 'r'
        &&& "chatEventPhotoChanged"@[0] == 'c'
        &&& "chatEventPhotoChanged"@[12] == 't'
        &&& "chatEventPhotoChanged"@[14] == 'C'
        &&& "chatEventTitleChanged"@[0] == 'c'
        &&& "chatEventTitleChanged"@[12] == 'l'
        &&& "chatEventTitleChanged"@[14] == 'C'
        &&& "chatMembersFilterBots"@[0] == 'c'
        &&& "chatMembersFilterBots"@[12] == 'i'
        &&& "chatMembersFilterBots"@[14] == 't'
        &&& "deviceTokenSimplePush"@[0] == 'd'
        &&& "deviceTokenSimplePush"@[12] == 'i'
        &&& "deviceTokenSimplePush"@[14] == 'p'
        &&& "deviceTokenUbuntuPush"@[0] == 'd'
        &&& "deviceTokenUbuntuPush"@[12] == 'b'
        &&& "deviceTokenUbuntuPush"@[14] == 'n'
        &&& "inlineQueryResultGame"@[0] == 'i'
        &&& "inlineQueryResultGame"@[12] == 'e'
        &&& "inlineQueryResultGame"@[14] == 'u'
        &&& "inputBackgroundRemote"@[0] == 'i'
        &&& "inputBackgroundRemote"@[12] == 'u'
        &&& "inputBackgroundRemote"@[14] == 'd'
        &&& "inputCredentialsSaved"@[0] == 'i'
        &&& "inputCredentialsSaved"@[12] == 'i'
        &&& "inputCredentialsSaved"@[14] == 'l'
        &&& "inputIdentityDocument"@[0] == 'i'
        &&& "inputIdentityDocument"@[12] == 'y'
        &&& "inputIdentityDocument"@[14] == 'o'
        &&& "inputMessageAnimation"@[0] == 'i'
        &&& "inputMessageAnimation"@[12] == 'A'
        &&& "inputMessageAnimation"@[14] == 'i'
        &&& "inputMessageForwarded"@[0] == 'i'
        &&& "inputMessageForwarded"@[12] == 'F'
        &&& "inputMessageForwarded"@[14] == 'r'
        &&& "inputMessageVideoNote"@[0] == 'i'
        &&& "inputMessageVideoNote"@[12] == 'V'
        &&& "inputMessageVideoNote"@[14] == 'd'
        &&& "inputMessageVoiceNote"@[0] == 'i'
        &&& "inputMessageVoiceNote"@[12] == 'V'
        &&& "inputMessageVoiceNote"@[14] == 'i'
        &&& "inputPersonalDocument"@[0] == 'i'
        &&& "inputPersonalDocument"@[12] == 'l'
        &&& "inputPersonalDocument"@[14] == 'o'
        &&& "messageChatAddMembers"@[0] == 'm'
        &&& "messageChatAddMembers"@[12] == 'd'
        &&& "messageChatAddMembers"@[14] == 'M'
        &&& "messageChatJoinByLink"@[0] == 'm'
        &&& "messageChatJoinByLink"@[12] == 'o'
        &&& "messageChatJoinByLink"@[14] == 'n'
        &&& "pageBlockEmbeddedPost"@[0] == 'p'
        &&& "pageBlockEmbeddedPost"@[12] == 'e'
        &&& "pageBlockEmbeddedPost"@[14] == 'd'
        &&& "pageBlockPreformatted"@[0] == 'p'
        &&& "pageBlockPreformatted"@[12] == 'f'
        &&& "pageBlockPreformatted"@[14] == 'r'
        &&& "replyMarkupForceReply"@[0] == 'r'
        &&& "replyMarkupForceReply"@[12] == 'o'
        &&& "replyMarkupForceReply"@[14] == 'c'
        &&& "richTextStrikethrough"@[0] == 'r'
        &&& "richTextStrikethrough"@[12] == 'k'
        &&& "richTextStrikethrough"@[14] == 't'
        &&& "secretChatStateClosed"@[0] == 's'
        &&& "secretChatStateClosed"@[12] == 'a'
        &&& "secretChatStateClosed"@[14] == 'e'
        &&& "storageStatisticsFast"@[0] == 's'
        &&& "storageStatisticsFast"@[12] == 's'
        &&& "storageStatisticsFast"@[14] == 'i'
        &&& "textEntityTypeCashtag"@[0] == 't'
        &&& "textEntityTypeCashtag"@[12] == 'p'
        &&& "textEntityTypeCashtag"@[14] == 'C'
        &&& "textEntityTypeHashtag"@[0] == 't'
        &&& "textEntityTypeHashtag"@[12] == 'p'
        &&& "textEntityTypeHashtag"@[14] == 'H'
        &&& "textEntityTypeMention"@[0] == 't'
        &&& "textEntityTypeMention"@[12] == 'p'
        &&& "textEntityTypeMention"@[14] == 'M'
        &&& "textEntityTypePreCode"@[0] == 't'
        &&& "textEntityTypePreCode"@[12] == 'p'
        &&& "textEntityTypePreCode"@[14] == 'P'
        &&& "textEntityTypeTextUrl"@[0] == 't'
        &&& "textEntityTypeTextUrl"@[12] == 'p'
        &&& "textEntityTypeTextUrl"@[14] == 'T'
        &&& "textParseModeMarkdown"@[0] == 't'
        &&& "textParseModeMarkdown"@[12] == 'e'
        &&& "textParseModeMarkdown"@[14] == 'a'
        &&& "topChatCategoryGroups"@[0] == 't'
        &&& "topChatCategoryGroups"@[12] == 'o'
        &&& "topChatCategoryGroups"@[14] == 'y'
        &&& "updateChatIsSponsored"@[0] == 'u'
        &&& "updateChatIsSponsored"@[12] == 'S'
        &&& "updateChatIsSponsored"@[14] == 'o'
        &&& "updateChatLastMessage"@[0] == 'u'
        &&& "updateChatLastMessage"@[12] == 's'
        &&& "updateChatLastMessage"@[14] == 'M'
        &&& "updateChatPermissions"@[0] == 'u'
        &&& "updateChatPermissions"@[12] == 'r'
        &&& "updateChatPermissions"@[14] == 'i'
        &&& "updateChatReplyMarkup"@[0] == 'u'
        &&& "updateChatReplyMarkup"@[12] == 'p'
        &&& "updateChatReplyMarkup"@[14] == 'y'
        &&& "updateConnectionState"@[0] == 'u'
        &&& "updateConnectionState"@[12] == 't'
        &&& "updateConnectionState"@[14] == 'o'
        &&& "updateSavedAnimations"@[0] == 'u'
        &&& "updateSavedAnimations"@[12] == 'n'
        &&& "updateSavedAnimations"@[14] == 'm'
        &&& "updateUnreadChatCount"@[0] == 'u'
        &&& "updateUnreadChatCount"@[12] == 'C'
        &&& "updateUnreadChatCount"@[14] == 'a'
    }

    /// What tells apart the discriminators of 21 characters.
    proof fn tags_spelled_21()
        ensures
            Self::spelled_21(),
    {
        reveal_strlit("backgroundTypePattern");
        reveal_strlit("chatEventMemberJoined");
        reveal_strlit("chatEventPhotoChanged");
        reveal_strlit("chatEventTitleChanged");
        reveal_strlit("chatMembersFilterBots");
        reveal_strlit("deviceTokenSimplePush");
        reveal_strlit("deviceTokenUbuntuPush");
        reveal_strlit("inlineQueryResultGame");
        reveal_strlit("inputBackgroundRemote");
        reveal_strlit("inputCredentialsSaved");
        reveal_strlit("inputIdentityDocument");
        reveal_strlit("inputMessageAnimation");
        reveal_strlit("inputMessageForwarded");
        reveal_strlit("inputMessageVideoNote");
        reveal_strlit("inputMessageVoiceNote");
        reveal_strlit("inputPersonalDocument");
        reveal_strlit("messageChatAddMembers");
        reveal_strlit("messageChatJoinByLink");
        reveal_strlit("pageBlockEmbeddedPost");
        reveal_strlit("pageBlockPreformatted");
        reveal_strlit("replyMarkupForceReply");
        reveal_strlit("richTextStrikethrough");
        reveal_strlit("secretChatStateClosed");
        reveal_strlit("storageStatisticsFast");
        reveal_strlit("textEntityTypeCashtag");
        reveal_strlit("textEntityTypeHashtag");
        reveal_strlit("textEntityTypeMention");
        reveal_strlit("textEntityTypePreCode");
        reveal_strlit("textEntityTypeTextUrl");
        reveal_strlit("textParseModeMarkdown");
        reveal_strlit("topChatCategoryGroups");
        reveal_strlit("updateChatIsSponsored");
        reveal_strlit("updateChatLastMessage");
        reveal_strlit("updateChatPermissions");
        reveal_strlit("updateChatReplyMarkup");
        reveal_strlit("updateConnectionState");
        reveal_strlit("updateSavedAnimations");
        reveal_strlit("updateUnreadChatCount");
    }

    spec fn spelled_22() -> bool {
        &&& "authenticationCodeInfo"@[14] == 'C'
        &&& "authenticationCodeInfo"@[17] == 'e'
        &&& "authenticationCodeInfo"@[18] == 'I'
        &&& "backgroundFillGradient"@[14] == 'G'
        &&& "backgroundFillGradient"@[17] == 'd'
        &&& "backgroundFillGradient"@[18] == 'i'
        &&& "callDiscardReasonEmpty"@[14] == 's'
        &&& "callDiscardReasonEmpty"@[17] == 'E'
        &&& "callDiscardReasonEmpty"@[18] == 'm'
        &&& "callProblemSilentLocal"@[14] == 'e'
        &&& "callProblemSilentLocal"@[17] == 'L'
        &&& "callProblemSilentLocal"@[18] == 'o'
        &&& "chatEventMemberInvited"@[14] == 'r'
        &&& "chatEventMemberInvited"@[17] == 'v'
        &&& "chatEventMemberInvited"@[18] == 'i'
        &&& "chatEventMessageEdited"@[14] == 'g'
        &&& "chatEventMessageEdited"@[17] == 'd'
        &&& "chatEventMessageEdited"@[18] == 'i'
        &&& "chatEventMessagePinned"@[14] == 'g'
        &&& "chatEventMessagePinned"@[17] == 'i'
        &&& "chatEventMessagePinned"@[18] == 'n'
        &&& "chatMemberStatusBanned"@[14] == 'u'
        &&& "chatMemberStatusBanned"@[17] == 'a'
        &&& "chatMemberStatusBanned"@[18] == 'n'
        &&& "chatMemberStatusMember"@[14] == 'u'
        &&& "chatMemberStatusMember"@[17] == 'e'
        &&& "chatMemberStatusMember"@[18] == 'm'
        &&& "chatReportReasonCustom"@[14] == 'o'
        &&& "chatReportReasonCustom"@[17] == 'u'
        &&& "chatReportReasonCustom"@[18] == 's'
        &&& "deviceTokenWindowsPush"@[14] == 'd'
        &&& "deviceTokenWindowsPush"@[17] == 's'
        &&& "deviceTokenWindowsPush"@[18] == 'P'
        &&& "inlineQueryResultAudio"@[14] == 'u'
        &&& "inlineQueryResultAudio"@[17] == 'A'
        &&& "inlineQueryResultAudio"@[18] == 'u'
        &&& "inlineQueryResultPhoto"@[14] == 'u'
        &&& "inlineQueryResultPhoto"@[17] == 'P'
        &&& "inlineQueryResultPhoto"@[18] == 'h'
        &&& "inlineQueryResultVenue"@[14] == 'u'
        &&& "inlineQueryResultVenue"@[17] == 'V'
        &&& "inlineQueryResultVenue"@[18] == 'e'
        &&& "inlineQueryResultVideo"@[14] == 'u'
        &&& "inlineQueryResultVideo"@[17] == 'V'
        &&& "inlineQueryResultVideo"@[18] == 'i'
        &&& "keyboardButtonTypeText"@[14] == 'T'
        &&& "keyboardButtonTypeText"@[17] == 'e'
        &&& "keyboardButtonTypeText"@[18] == 'T'
        &&& "localizationTargetInfo"@[14] == 'r'
        &&& "localizationTargetInfo"@[17] == 't'
        &&& "localizationTargetInfo"@[18] == 'I'
        &&& "messageChatChangePhoto"@[14] == 'n'
        &&& "messageChatChangePhoto"@[17] == 'P'
        &&& "messageChatChangePhoto"@[18] == 'h'
        &&& "messageChatChangeTitle"@[14] == 'n'
        &&& "messageChatChangeTitle"@[17] == 'T'
        &&& "messageChatChangeTitle"@[18] == 'i'
        &&& "messageChatDeletePhoto"@[14] == 'e'
        &&& "messageChatDeletePhoto"@[17] == 'P'
        &&& "messageChatDeletePhoto"@[18] == 'h'
        &&& "messageChatUpgradeFrom"@[14] == 'r'
        &&& "messageChatUpgradeFrom"@[17] == 'e'
        &&& "messageChatUpgradeFrom"@[18] == 'F'
        &&& "messageScreenshotTaken"@[14] == 'h'
        &&& "messageScreenshotTaken"@[17] == 'T'
        &&& "messageScreenshotTaken"@[18] == 'a'
        &&& "passportElementAddress"@[14] == 't'
        &&& "passportElementAddress"@[17] == 'd'
        &&& "passportElementAddress"@[18] == 'r'
        &&& "paymentsProviderStripe"@[14] == 'e'
        &&& "paymentsProviderStripe"@[17] == 't'
        &&& "paymentsProviderStripe"@[18] == 'r'
        &&& "pushMessageContentGame"@[14] == 't'
        &&& "pushMessageContentGame"@[17] == 't'
        &&& "pushMessageContentGame"@[18] == 'G'
        &&& "pushMessageContentPoll"@[14] == 't'
        &&& "pushMessageContentPoll"@[17] == 't'
        &&& "pushMessageContentPoll"@[18] == 'P'
        &&& "pushMessageContentText"@[14] == 't'
        &&& "pushMessageContentText"@[17] == 't'
        &&& "pushMessageContentText"@[18] == 'T'
        &&& "secretChatStatePending"@[14] == 'e'
        &&& "secretChatStatePending"@[17] == 'n'
        &&& "secretChatStatePending"@[18] == 'd'
        &&& "temporaryPasswordState"@[14] == 'o'
        &&& "temporaryPasswordState"@[17] == 'S'
        &&& "temporaryPasswordState"@[18] == 't'
        &&& "testVectorStringObject"@[14] == 'n'
        &&& "testVectorStringObject"@[17] == 'b'
        &&& "testVectorStringObject"@[18] == 'j'
        &&& "updateChatDraftMessage"@[14] == 't'
        &&& "updateChatDraftMessage"@[17] == 's'
        &&& "updateChatDraftMessage"@[18] == 's'
        &&& "updateFavoriteStickers"@[14] == 'S'
        &&& "updateFavoriteStickers"@[17] == 'c'
        &&& "updateFavoriteStickers"@[18] == 'k'
        &&& "updateNewCallbackQuery"@[14] == 'a'
        &&& "updateNewCallbackQuery"@[17] == 'Q'
        &&& "updateNewCallbackQuery"@[18] == 'u'
        &&& "updateNewShippingQuery"@[14] == 'i'
        &&& "updateNewShippingQuery"@[17] == 'Q'
        &&& "updateNewShippingQuery"@[18] == 'u'
    }

    /// What tells apart the discriminators of 22 characters.
    proof fn tags_spelled_22()
        ensures
            Self::spelled_22(),
    {
        reveal_strlit("authenticationCodeInfo");
        reveal_strlit("backgroundFillGradient");
        reveal_strlit("callDiscardReasonEmpty");
        reveal_strlit("callProblemSilentLocal");
        reveal_strlit("chatEventMemberInvited");
        reveal_strlit("chatEventMessageEdited");
        reveal_strlit("chatEventMessagePinned");
        reveal_strlit("chatMemberStatusBanned");
        reveal_strlit("chatMemberStatusMember");
        reveal_strlit("chatReportReasonCustom");
        reveal_strlit("deviceTokenWindowsPush");
        reveal_strlit("inlineQueryResultAudio");
        reveal_strlit("inlineQueryResultPhoto");
        reveal_strlit("inlineQueryResultVenue");
        reveal_strlit("inlineQueryResultVideo");
        reveal_strlit("keyboardButtonTypeText");
        reveal_strlit("localizationTargetInfo");
        reveal_strlit("messageChatChangePhoto");
        reveal_strlit("messageChatChangeTitle");
        reveal_strlit("messageChatDeletePhoto");
        reveal_strlit("messageChatUpgradeFrom");
        reveal_strlit("messageScreenshotTaken");
        reveal_strlit("passportElementAddress");
        reveal_strlit("paymentsProviderStripe");
        reveal_strlit("pushMessageContentGame");
        reveal_strlit("pushMessageContentPoll");
        reveal_strlit("pushMessageContentText");
        reveal_strlit("secretChatStatePending");
        reveal_strlit("temporaryPasswordState");
        reveal_strlit("testVectorStringObject");
        reveal_strlit("updateChatDraftMessage");
        reveal_strlit("updateFavoriteStickers");
        reveal_strlit("updateNewCallbackQuery");
        reveal_strlit("updateNewShippingQuery");
    }

    spec fn spelled_23() -> bool {
        &&& "authorizationStateReady"@[11] == 'o'
        &&& "authorizationStateReady"@[19] == 'e'
        &&& "backgroundTypeWallpaper"@[11] == 'y'
        &&& "backgroundTypeWallpaper"@[19] == 'a'
        &&& "callDiscardReasonHungUp"@[11] == 'R'
        &&& "callDiscardReasonHungUp"@[19] == 'n'
        &&& "callDiscardReasonMissed"@[11] == 'R'
        &&& "callDiscardReasonMissed"@[19] == 's'
        &&& "callProblemSilentRemote"@[11] == 'S'
        &&& "callProblemSilentRemote"@[19] == 'm'
        &&& "callStateExchangingKeys"@[11] == 'c'
        &&& "callStateExchangingKeys"@[19] == 'K'
        &&& "chatActionBarAddContact"@[11] == 'a'
        &&& "chatActionBarAddContact"@[19] == 't'
        &&& "chatActionBarReportSpam"@[11] == 'a'
        &&& "chatActionBarReportSpam"@[19] == 'S'
        &&& "chatEventInvitesToggled"@[11] == 'v'
        &&& "chatEventInvitesToggled"@[19] == 'g'
        &&& "chatEventMemberPromoted"@[11] == 'm'
        &&& "chatEventMemberPromoted"@[19] == 'o'
        &&& "chatEventMessageDeleted"@[11] == 's'
        &&& "chatEventMessageDeleted"@[19] == 'e'
        &&& "chatMemberStatusCreator"@[11] == 't'
        &&& "chatMemberStatusCreator"@[19] == 'a'
        &&& "chatMembersFilterBanned"@[11] == 'F'
        &&& "chatMembersFilterBanned"@[19] == 'n'
        &&& "connectionStateUpdating"@[11] == 't'
        &&& "connectionStateUpdating"@[19] == 't'
        &&& "fileTypeSecretThumbnail"@[11] == 'r'
        &&& "fileTypeSecretThumbnail"@[19] == 'n'
        &&& "messageChatDeleteMember"@[11] == 'D'
        &&& "messageChatDeleteMember"@[19] == 'm'
        &&& "messagePassportDataSent"@[11] == 'p'
        &&& "messagePassportDataSent"@[19] == 'S'
        &&& "messageWebsiteConnected"@[11] == 'i'
        &&& "messageWebsiteConnected"@[19] == 'c'
        &&& "notificationTypeNewCall"@[11] == 'n'
        &&& "notificationTypeNewCall"@[19] == 'C'
        &&& "pageBlockRelatedArticle"@[11] == 'l'
        &&& "pageBlockRelatedArticle"@[19] == 'i'
        &&& "passportElementPassport"@[11] == 'm'
        &&& "passportElementPassport"@[19] == 'p'
        &&& "passportRequiredElement"@[11] == 'u'
        &&& "passportRequiredElement"@[19] == 'm'
        &&& "passportSuitableElement"@[11] == 't'
        &&& "passportSuitableElement"@[19] == 'm'
        &&& "pushMessageContentAudio"@[11] == 'C'
        &&& "pushMessageContentAudio"@[19] == 'u'
        &&& "pushMessageContentPhoto"@[11] == 'C'
        &&& "pushMessageContentPhoto"@[19] == 'h'
        &&& "pushMessageContentVideo"@[11] == 'C'
        &&& "pushMessageContentVideo"@[19] == 'i'
        &&& "replyMarkupShowKeyboard"@[11] == 'S'
        &&& "replyMarkupShowKeyboard"@[19] == 'o'
        &&& "searchMessagesFilterUrl"@[11] == 'g'
        &&& "searchMessagesFilterUrl"@[19] == 'r'
        &&& "storageStatisticsByChat"@[11] == 'i'
        &&& "storageStatisticsByChat"@[19] == 'C'
        &&& "textEntityTypeUnderline"@[11] == 'y'
        &&& "textEntityTypeUnderline"@[19] == 'l'
        &&& "topChatCategoryChannels"@[11] == 'g'
        &&& "topChatCategoryChannels"@[19] == 'n'
        &&& "updateChatPinnedMessage"@[11] == 'i'
        &&& "updateChatPinnedMessage"@[19] == 's'
        &&& "updateMessageSendFailed"@[11] == 'g'
        &&& "updateMessageSendFailed"@[19] == 'i'
        &&& "updateNotificationGroup"@[11] == 'i'
        &&& "updateNotificationGroup"@[19] == 'r'
        &&& "userPrivacySettingRules"@[11] == 'S'
        &&& "userPrivacySettingRules"@[19] == 'u'
    }

    /// What tells apart the discriminators of 23 characters.
    proof fn tags_spelled_23()
        ensures
            Self::spelled_23(),
    {
        reveal_strlit("authorizationStateReady");
        reveal_strlit("backgroundTypeWallpaper");
        reveal_strlit("callDiscardReasonHungUp");
        reveal_strlit("callDiscardReasonMissed");
        reveal_strlit("callProblemSilentRemote");
        reveal_strlit("callStateExchangingKeys");
        reveal_strlit("chatActionBarAddContact");
        reveal_strlit("chatActionBarReportSpam");
        reveal_strlit("chatEventInvitesToggled");
        reveal_strlit("chatEventMemberPromoted");
        reveal_strlit("chatEventMessageDeleted");
        reveal_strlit("chatMemberStatusCreator");
        reveal_strlit("chatMembersFilterBanned");
        reveal_strlit("connectionStateUpdating");
        reveal_strlit("fileTypeSecretThumbnail");
        reveal_strlit("messageChatDeleteMember");
        reveal_strlit("messagePassportDataSent");
        reveal_strlit("messageWebsiteConnected");
        reveal_strlit("notificationTypeNewCall");
        reveal_strlit("pageBlockRelatedArticle");
        reveal_strlit("passportElementPassport");
        reveal_strlit("passportRequiredElement");
        reveal_strlit("passportSuitableElement");
        reveal_strlit("pushMessageContentAudio");
        reveal_strlit("pushMessageContentPhoto");
        reveal_strlit("pushMessageContentVideo");
        reveal_strlit("replyMarkupShowKeyboard");
        reveal_strlit("searchMessagesFilterUrl");
        reveal_strlit("storageStatisticsByChat");
        reveal_strlit("textEntityTypeUnderline");
        reveal_strlit("topChatCategoryChannels");
        reveal_strlit("updateChatPinnedMessage");
        reveal_strlit("updateMessageSendFailed");
        reveal_strlit("updateNotificationGroup");
        reveal_strlit("userPrivacySettingRules");
    }

    spec fn spelled_24() -> bool {
        &&& "authorizationStateClosed"@[10] == 'i'
        &&& "authorizationStateClosed"@[20] == 'o'
        &&& "callProblemInterruptions"@[10] == 'm'
        &&& "callProblemInterruptions"@[20] == 'i'
        &&& "callbackQueryPayloadData"@[10] == 'e'
        &&& "callbackQueryPayloadData"@[20] == 'D'
        &&& "callbackQueryPayloadGame"@[10] == 'e'
        &&& "callbackQueryPayloadGame"@[20] == 'G'
        &&& "chatActionRecordingVideo"@[10] == 'R'
        &&& "chatActionRecordingVideo"@[20] == 'i'
        &&& "chatActionUploadingPhoto"@[10] == 'U'
        &&& "chatActionUploadingPhoto"@[20] == 'h'
        &&& "chatActionUploadingVideo"@[10] == 'U'
        &&& "chatActionUploadingVideo"@[20] == 'i'
        &&& "chatEventLocationChanged"@[10] == 'o'
        &&& "chatEventLocationChanged"@[20] == 'n'
        &&& "chatEventMessageUnpinned"@[10] == 'e'
        &&& "chatEventMessageUnpinned"@[20] == 'n'
        &&& "chatEventUsernameChanged"@[10] == 's'
        &&& "chatEventUsernameChanged"@[20] == 'n'
        &&& "chatMembersFilterMembers"@[10] == 's'
        &&& "chatMembersFilterMembers"@[20] == 'b'
        &&& "chatNotificationSettings"@[10] == 'c'
        &&& "chatNotificationSettings"@[20] == 'i'
        &&& "chatReportReasonViolence"@[10] == 'R'
        &&& "chatReportReasonViolence"@[20] == 'e'
        &&& "deviceTokenApplePushVoIP"@[10] == 'n'
        &&& "deviceTokenApplePushVoIP"@[20] == 'V'
        &&& "deviceTokenMicrosoftPush"@[10] == 'n'
        &&& "deviceTokenMicrosoftPush"@[20] == 'P'
        &&& "encryptedPassportElement"@[10] == 'a'
        &&& "encryptedPassportElement"@[20] == 'm'
        &&& "inlineQueryResultArticle"@[10] == 'y'
        &&& "inlineQueryResultArticle"@[20] == 'i'
        &&& "inlineQueryResultContact"@[10] == 'y'
        &&& "inlineQueryResultContact"@[20] == 't'
        &&& "inlineQueryResultSticker"@[10] == 'y'
        &&& "inlineQueryResultSticker"@[20] == 'c'
        &&& "inputCredentialsApplePay"@[10] == 'n'
        &&& "inputCredentialsApplePay"@[20] == 'e'
        &&& "messageContactRegistered"@[10] == 't'
        &&& "messageContactRegistered"@[20] == 'e'
        &&& "messageForwardOriginUser"@[10] == 'w'
        &&& "messageForwardOriginUser"@[20] == 'U'
        &&& "messagePaymentSuccessful"@[10] == 'm'
        &&& "messagePaymentSuccessful"@[20] == 's'
        &&& "networkTypeMobileRoaming"@[10] == 'e'
        &&& "networkTypeMobileRoaming"@[20] == 'm'
        &&& "pageBlockRelatedArticles"@[10] == 'e'
        &&& "pageBlockRelatedArticles"@[20] == 'c'
        &&& "pushMessageContentHidden"@[10] == 'e'
        &&& "pushMessageContentHidden"@[20] == 'd'
        &&& "searchMessagesFilterCall"@[10] == 'a'
        &&& "searchMessagesFilterCall"@[20] == 'C'
        &&& "textEntityTypeBotCommand"@[10] == 'T'
        &&& "textEntityTypeBotCommand"@[20] == 'm'
        &&& "updateAuthorizationState"@[10] == 'o'
        &&& "updateAuthorizationState"@[20] == 't'
        &&& "updateBasicGroupFullInfo"@[10] == 'c'
        &&& "updateBasicGroupFullInfo"@[20] == 'I'
        &&& "updateFileGenerationStop"@[10] == 'G'
        &&& "updateFileGenerationStop"@[20] == 'S'
        &&& "updateMessageMentionRead"@[10] == 'a'
        &&& "updateMessageMentionRead"@[20] == 'R'
        &&& "updateSelectedBackground"@[10] == 'c'
        &&& "updateSelectedBackground"@[20] == 'o'
        &&& "updateSupergroupFullInfo"@[10] == 'r'
        &&& "updateSupergroupFullInfo"@[20] == 'I'
        &&& "updateUnreadMessageCount"@[10] == 'a'
        &&& "updateUnreadMessageCount"@[20] == 'o'
    }

    /// What tells apart the discriminators of 24 characters.
    proof fn tags_spelled_24()
        ensures
            Self::spelled_24(),
    {
        reveal_strlit("authorizationStateClosed");
        reveal_strlit("callProblemInterruptions");
        reveal_strlit("callbackQueryPayloadData");
        reveal_strlit("callbackQueryPayloadGame");
        reveal_strlit("chatActionRecordingVideo");
        reveal_strlit("chatActionUploadingPhoto");
        reveal_strlit("chatActionUploadingVideo");
        reveal_strlit("chatEventLocationChanged");
        reveal_strlit("chatEventMessageUnpinned");
        reveal_strlit("chatEventUsernameChanged");
        reveal_strlit("chatMembersFilterMembers");
        reveal_strlit("chatNotificationSettings");
        reveal_strlit("chatReportReasonViolence");
        reveal_strlit("deviceTokenApplePushVoIP");
        reveal_strlit("deviceTokenMicrosoftPush");
        reveal_strlit("encryptedPassportElement");
        reveal_strlit("inlineQueryResultArticle");
        reveal_strlit("inlineQueryResultContact");
        reveal_strlit("inlineQueryResultSticker");
        reveal_strlit("inputCredentialsApplePay");
        reveal_strlit("messageContactRegistered");
        reveal_strlit("messageForwardOriginUser");
        reveal_strlit("messagePaymentSuccessful");
        reveal_strlit("networkTypeMobileRoaming");
        reveal_strlit("pageBlockRelatedArticles");
        reveal_strlit("pushMessageContentHidden");
        reveal_strlit("searchMessagesFilterCall");
        reveal_strlit("textEntityTypeBotCommand");
        reveal_strlit("updateAuthorizationState");
        reveal_strlit("updateBasicGroupFullInfo");
        reveal_strlit("updateFileGenerationStop");
        reveal_strlit("updateMessageMentionRead");
        reveal_strlit("updateSelectedBackground");
        reveal_strlit("updateSupergroupFullInfo");
        reveal_strlit("updateUnreadMessageCount");
    }

    spec fn spelled_25() -> bool {
        &&& "authenticationCodeTypeSms"@[0] == 'a'
        &&& "authenticationCodeTypeSms"@[11] == 'i'
        &&& "authenticationCodeTypeSms"@[20] == 'p'
        &&& "authorizationStateClosing"@[0] == 'a'
        &&& "authorizationStateClosing"@[11] == 'o'
        &&& "authorizationStateClosing"@[20] == 'o'
        &&& "callDiscardReasonDeclined"@[0] == 'c'
        &&& "callDiscardReasonDeclined"@[11] == 'R'
        &&& "callDiscardReasonDeclined"@[20] == 'l'
        &&& "chatActionChoosingContact"@[0] == 'c'
        &&& "chatActionChoosingContact"@[11] == 'h'
        &&& "chatActionChoosingContact"@[20] == 'n'
        &&& "chatEventMemberRestricted"@[0] == 'c'
        &&& "chatEventMemberRestricted"@[11] == 'm'
        &&& "chatEventMemberRestricted"@[20] == 'i'
        &&& "chatMembersFilterContacts"@[0] == 'c'
        &&& "chatMembersFilterContacts"@[11] == 'F'
        &&& "chatMembersFilterContacts"@[20] == 't'
        &&& "chatReportReasonCopyright"@[0] == 'c'
        &&& "chatReportReasonCopyright"@[11] == 'e'
        &&& "chatReportReasonCopyright"@[20] == 'r'
        &&& "checkChatUsernameResultOk"@[0] == 'c'
        &&& "checkChatUsernameResultOk"@[11] == 'e'
        &&& "checkChatUsernameResultOk"@[20] == 'u'
        &&& "connectionStateConnecting"@[0] == 'c'
        &&& "connectionStateConnecting"@[11] == 't'
        &&& "connectionStateConnecting"@[20] == 'c'
        &&& "deviceTokenBlackBerryPush"@[0] == 'd'
        &&& "deviceTokenBlackBerryPush"@[11] == 'B'
        &&& "deviceTokenBlackBerryPush"@[20] == 'y'
        &&& "inlineQueryResultDocument"@[0] == 'i'
        &&& "inlineQueryResultDocument"@[11] == 'R'
        &&& "inlineQueryResultDocument"@[20] == 'u'
        &&& "inlineQueryResultLocation"@[0] == 'i'
        &&& "inlineQueryResultLocation"@[11] == 'R'
        &&& "inlineQueryResultLocation"@[20] == 'a'
        &&& "inputPassportElementError"@[0] == 'i'
        &&& "inputPassportElementError"@[11] == 'r'
        &&& "inputPassportElementError"@[20] == 'E'
        &&& "messageSendingStateFailed"@[0] == 'm'
        &&& "messageSendingStateFailed"@[11] == 'i'
        &&& "messageSendingStateFailed"@[20] == 'a'
        &&& "passportAuthorizationForm"@[0] == 'p'
        &&& "passportAuthorizationForm"@[11] == 'h'
        &&& "passportAuthorizationForm"@[20] == 'n'
        &&& "publicChatTypeHasUsername"@[0] == 'p'
        &&& "publicChatTypeHasUsername"@[11] == 'y'
        &&& "publicChatTypeHasUsername"@[20] == 'r'
        &&& "pushMessageContentContact"@[0] == 'p'
        &&& "pushMessageContentContact"@[11] == 'C'
        &&& "pushMessageContentContact"@[20] == 'n'
        &&& "pushMessageContentInvoice"@[0] == 'p'
        &&& "pushMessageContentInvoice"@[11] == 'C'
        &&& "pushMessageContentInvoice"@[20] == 'v'
        &&& "pushMessageContentSticker"@[0] == 'p'
        &&& "pushMessageContentSticker"@[11] == 'C'
        &&& "pushMessageContentSticker"@[20] == 'i'
        &&& "replyMarkupInlineKeyboard"@[0] == 'r'
        &&& "replyMarkupInlineKeyboard"@[11] == 'I'
        &&& "replyMarkupInlineKeyboard"@[20] == 'b'
        &&& "replyMarkupRemoveKeyboard"@[0] == 'r'
        &&& "replyMarkupRemoveKeyboard"@[11] == 'R'
        &&& "replyMarkupRemoveKeyboard"@[20] == 'b'
        &&& "scopeNotificationSettings"@[0] == 's'
        &&& "scopeNotificationSettings"@[11] == 'c'
        &&& "scopeNotificationSettings"@[20] == 't'
        &&& "searchMessagesFilterAudio"@[0] == 's'
        &&& "searchMessagesFilterAudio"@[11] == 'g'
        &&& "searchMessagesFilterAudio"@[20] == 'A'
        &&& "searchMessagesFilterEmpty"@[0] == 's'
        &&& "searchMessagesFilterEmpty"@[11] == 'g'
        &&& "searchMessagesFilterEmpty"@[20] == 'E'
        &&& "searchMessagesFilterPhoto"@[0] == 's'
        &&& "searchMessagesFilterPhoto"@[11] == 'g'
        &&& "searchMessagesFilterPhoto"@[20] == 'P'
        &&& "searchMessagesFilterVideo"@[0] == 's'
        &&& "searchMessagesFilterVideo"@[11] == 'g'
        &&& "searchMessagesFilterVideo"@[20] == 'V'
        &&& "textEntityTypeMentionName"@[0] == 't'
        &&& "textEntityTypeMentionName"@[11] == 'y'
        &&& "textEntityTypeMentionName"@[20] == 'n'
        &&& "textEntityTypePhoneNumber"@[0] == 't'
        &&& "textEntityTypePhoneNumber"@[11] == 'y'
        &&& "textEntityTypePhoneNumber"@[20] == 'u'
        &&& "topChatCategoryInlineBots"@[0] == 't'
        &&& "topChatCategoryInlineBots"@[11] == 'g'
        &&& "topChatCategoryInlineBots"@[20] == 'e'
        &&& "updateActiveNotifications"@[0] == 'u'
        &&& "updateActiveNotifications"@[11] == 'e'
        &&& "updateActiveNotifications"@[20] == 't'
        &&& "updateFileGenerationStart"@[0] == 'u'
        &&& "updateFileGenerationStart"@[11] == 'e'
        &&& "updateFileGenerationStart"@[20] == 'S'
        &&& "updateLanguagePackStrings"@[0] == 'u'
        &&& "updateLanguagePackStrings"@[11] == 'a'
        &&& "updateLanguagePackStrings"@[20] == 'r'
        &&& "updateNewPreCheckoutQuery"@[0] == 'u'
        &&& "updateNewPreCheckoutQuery"@[11] == 'e'
        &&& "updateNewPreCheckoutQuery"@[20] == 'Q'
        &&& "updateServiceNotification"@[0] == 'u'
        &&& "updateServiceNotification"@[11] == 'c'
        &&& "updateServiceNotification"@[20] == 'a'
        &&& "updateTrendingStickerSets"@[0] == 'u'
        &&& "updateTrendingStickerSets"@[11] == 'i'
        &&& "updateTrendingStickerSets"@[20] == 'r'
    }

    /// What tells apart the discriminators of 25 characters.
    proof fn tags_spelled_25()
        ensures
            Self::spelled_25(),
    {
        reveal_strlit("authenticationCodeTypeSms");
        reveal_strlit("authorizationStateClosing");
        reveal_strlit("callDiscardReasonDeclined");
        reveal_strlit("chatActionChoosingContact");
        reveal_strlit("chatEventMemberRestricted");
        reveal_strlit("chatMembersFilterContacts");
        reveal_strlit("chatReportReasonCopyright");
        reveal_strlit("checkChatUsernameResultOk");
        reveal_strlit("connectionStateConnecting");
        reveal_strlit("deviceTokenBlackBerryPush");
        reveal_strlit("inlineQueryResultDocument");
        reveal_strlit("inlineQueryResultLocation");
        reveal_strlit("inputPassportElementError");
        reveal_strlit("messageSendingStateFailed");
        reveal_strlit("passportAuthorizationForm");
        reveal_strlit("publicChatTypeHasUsername");
        reveal_strlit("pushMessageContentContact");
        reveal_strlit("pushMessageContentInvoice");
        reveal_strlit("pushMessageContentSticker");
        reveal_strlit("replyMarkupInlineKeyboard");
        reveal_strlit("replyMarkupRemoveKeyboard");
        reveal_strlit("scopeNotificationSettings");
        reveal_strlit("searchMessagesFilterAudio");
        reveal_strlit("searchMessagesFilterEmpty");
        reveal_strlit("searchMessagesFilterPhoto");
        reveal_strlit("searchMessagesFilterVideo");
        reveal_strlit("textEntityTypeMentionName");
        reveal_strlit("textEntityTypePhoneNumber");
        reveal_strlit("topChatCategoryInlineBots");
        reveal_strlit("updateActiveNotifications");
        reveal_strlit("updateFileGenerationStart");
        reveal_strlit("updateLanguagePackStrings");
        reveal_strlit("updateNewPreCheckoutQuery");
        reveal_strlit("updateServiceNotification");
        reveal_strlit("updateTrendingStickerSets");
    }

    spec fn spelled_26() -> bool {
        &&& "authenticationCodeTypeCall"@[15] == 'o'
        &&& "authenticationCodeTypeCall"@[23] == 'a'
        &&& "authorizationStateWaitCode"@[15] == 'a'
        &&& "authorizationStateWaitCode"@[23] == 'o'
        &&& "callProblemDistortedSpeech"@[15] == 'o'
        &&& "callProblemDistortedSpeech"@[23] == 'e'
        &&& "chatActionChoosingLocation"@[15] == 'i'
        &&& "chatActionChoosingLocation"@[23] == 'i'
        &&& "chatActionStartPlayingGame"@[15] == 'P'
        &&& "chatActionStartPlayingGame"@[23] == 'a'
        &&& "chatEventLinkedChatChanged"@[15] == 'C'
        &&& "chatEventLinkedChatChanged"@[23] == 'g'
        &&& "chatEventStickerSetChanged"@[15] == 'r'
        &&& "chatEventStickerSetChanged"@[23] == 'g'
        &&& "chatMemberStatusRestricted"@[15] == 's'
        &&& "chatMemberStatusRestricted"@[23] == 't'
        &&& "chatReportReasonChildAbuse"@[15] == 'n'
        &&& "chatReportReasonChildAbuse"@[23] == 'u'
        &&& "inlineQueryResultAnimation"@[15] == 'l'
        &&& "inlineQueryResultAnimation"@[23] == 'i'
        &&& "inlineQueryResultVoiceNote"@[15] == 'l'
        &&& "inlineQueryResultVoiceNote"@[23] == 'o'
        &&& "inputCredentialsAndroidPay"@[15] == 's'
        &&& "inputCredentialsAndroidPay"@[23] == 'P'
        &&& "inputInlineQueryResultGame"@[15] == 'y'
        &&& "inputInlineQueryResultGame"@[23] == 'a'
        &&& "messageCustomServiceAction"@[15] == 'r'
        &&& "messageCustomServiceAction"@[23] == 'i'
        &&& "messageSendingStatePending"@[15] == 't'
        &&& "messageSendingStatePending"@[23] == 'i'
        &&& "networkStatisticsEntryCall"@[15] == 'c'
        &&& "networkStatisticsEntryCall"@[23] == 'a'
        &&& "networkStatisticsEntryFile"@[15] == 'c'
        &&& "networkStatisticsEntryFile"@[23] == 'i'
        &&& "notificationGroupTypeCalls"@[15] == 'u'
        &&& "notificationGroupTypeCalls"@[23] == 'l'
        &&& "notificationTypeNewMessage"@[15] == 'e'
        &&& "notificationTypeNewMessage"@[23] == 'a'
        &&& "passportElementPhoneNumber"@[15] == 'P'
        &&& "passportElementPhoneNumber"@[23] == 'b'
        &&& "passportElementTypeAddress"@[15] == 'T'
        &&& "passportElementTypeAddress"@[23] == 'e'
        &&& "passportElementUtilityBill"@[15] == 'U'
        &&& "passportElementUtilityBill"@[23] == 'i'
        &&& "passportElementsWithErrors"@[15] == 's'
        &&& "passportElementsWithErrors"@[23] == 'o'
        &&& "pushMessageContentDocument"@[15] == 'e'
        &&& "pushMessageContentDocument"@[23] == 'e'
        &&& "pushMessageContentLocation"@[15] == 'e'
        &&& "pushMessageContentLocation"@[23] == 'i'
        &&& "textEntityTypeEmailAddress"@[15] == 'm'
        &&& "textEntityTypeEmailAddress"@[23] == 'e'
        &&& "updateChatIsMarkedAsUnread"@[15] == 'k'
        &&& "updateChatIsMarkedAsUnread"@[23] == 'e'
        &&& "updateInstalledStickerSets"@[15] == 'S'
        &&& "updateInstalledStickerSets"@[23] == 'e'
        &&& "updateMessageContentOpened"@[15] == 'n'
        &&& "updateMessageContentOpened"@[23] == 'n'
        &&& "updateMessageSendSucceeded"@[15] == 'n'
        &&& "updateMessageSendSucceeded"@[23] == 'd'
    }

    /// What tells apart the discriminators of 26 characters.
    proof fn tags_spelled_26()
        ensures
            Self::spelled_26(),
    {
        reveal_strlit("authenticationCodeTypeCall");
        reveal_strlit("authorizationStateWaitCode");
        reveal_strlit("callProblemDistortedSpeech");
        reveal_strlit("chatActionChoosingLocation");
        reveal_strlit("chatActionStartPlayingGame");
        reveal_strlit("chatEventLinkedChatChanged");
        reveal_strlit("chatEventStickerSetChanged");
        reveal_strlit("chatMemberStatusRestricted");
        reveal_strlit("chatReportReasonChildAbuse");
        reveal_strlit("inlineQueryResultAnimation");
        reveal_strlit("inlineQueryResultVoiceNote");
        reveal_strlit("inputCredentialsAndroidPay");
        reveal_strlit("inputInlineQueryResultGame");
        reveal_strlit("messageCustomServiceAction");
        reveal_strlit("messageSendingStatePending");
        reveal_strlit("networkStatisticsEntryCall");
        reveal_strlit("networkStatisticsEntryFile");
        reveal_strlit("notificationGroupTypeCalls");
        reveal_strlit("notificationTypeNewMessage");
        reveal_strlit("passportElementPhoneNumber");
        reveal_strlit("passportElementTypeAddress");
        reveal_strlit("passportElementUtilityBill");
        reveal_strlit("passportElementsWithErrors");
        reveal_strlit("pushMessageContentDocument");
        reveal_strlit("pushMessageContentLocation");
        reveal_strlit("textEntityTypeEmailAddress");
        reveal_strlit("updateChatIsMarkedAsUnread");
        reveal_strlit("updateInstalledStickerSets");
        reveal_strlit("updateMessageContentOpened");
        reveal_strlit("updateMessageSendSucceeded");
    }

    spec fn spelled_27() -> bool {
        &&& "autoDownloadSettingsPresets"@[9] == 'o'
        &&& "autoDownloadSettingsPresets"@[19] == 's'
        &&& "autoDownloadSettingsPresets"@[23] == 's'
        &&& "autoDownloadSettingsPresets"@[24] == 'e'
        &&& "chatActionBarReportAddBlock"@[9] == 'n'
        &&& "chatActionBarReportAddBlock"@[19] == 'A'
        &&& "chatActionBarReportAddBlock"@[23] == 'l'
        &&& "chatActionBarReportAddBlock"@[24] == 'o'
        &&& "chatActionUploadingDocument"@[9] == 'n'
        &&& "chatActionUploadingDocument"@[19] == 'D'
        &&& "chatActionUploadingDocument"@[23] == 'm'
        &&& "chatActionUploadingDocument"@[24] == 'e'
        &&& "chatEventDescriptionChanged"@[9] == 'D'
        &&& "chatEventDescriptionChanged"@[19] == 'n'
        &&& "chatEventDescriptionChanged"@[23] == 'n'
        &&& "chatEventDescriptionChanged"@[24] == 'g'
        &&& "chatEventPermissionsChanged"@[9] == 'P'
        &&& "chatEventPermissionsChanged"@[19] == 's'
        &&& "chatEventPermissionsChanged"@[23] == 'n'
        &&& "chatEventPermissionsChanged"@[24] == 'g'
        &&& "chatMembersFilterRestricted"@[9] == 'r'
        &&& "chatMembersFilterRestricted"@[19] == 's'
        &&& "chatMembersFilterRestricted"@[23] == 'c'
        &&& "chatMembersFilterRestricted"@[24] == 't'
        &&& "chatReportReasonPornography"@[9] == 't'
        &&& "chatReportReasonPornography"@[19] == 'n'
        &&& "chatReportReasonPornography"@[23] == 'a'
        &&& "chatReportReasonPornography"@[24] == 'p'
        &&& "inlineKeyboardButtonTypeBuy"@[9] == 'b'
        &&& "inlineKeyboardButtonTypeBuy"@[19] == 'n'
        &&& "inlineKeyboardButtonTypeBuy"@[23] == 'e'
        &&& "inlineKeyboardButtonTypeBuy"@[24] == 'B'
        &&& "inlineKeyboardButtonTypeUrl"@[9] == 'b'
        &&& "inlineKeyboardButtonTypeUrl"@[19] == 'n'
        &&& "inlineKeyboardButtonTypeUrl"@[23] == 'e'
        &&& "inlineKeyboardButtonTypeUrl"@[24] == 'U'
        &&& "inputInlineQueryResultAudio"@[9] == 'n'
        &&& "inputInlineQueryResultAudio"@[19] == 'u'
        &&& "inputInlineQueryResultAudio"@[23] == 'u'
        &&& "inputInlineQueryResultAudio"@[24] == 'd'
        &&& "inputInlineQueryResultPhoto"@[9] == 'n'
        &&& "inputInlineQueryResultPhoto"@[19] == 'u'
        &&& "inputInlineQueryResultPhoto"@[23] == 'h'
        &&& "inputInlineQueryResultPhoto"@[24] == 'o'
        &&& "inputInlineQueryResultVenue"@[9] == 'n'
        &&& "inputInlineQueryResultVenue"@[19] == 'u'
        &&& "inputInlineQueryResultVenue"@[23] == 'e'
        &&& "inputInlineQueryResultVenue"@[24] == 'n'
        &&& "inputInlineQueryResultVideo"@[9] == 'n'
        &&& "inputInlineQueryResultVideo"@[19] == 'u'
        &&& "inputInlineQueryResultVideo"@[23] == 'i'
        &&& "inputInlineQueryResultVideo"@[24] == 'd'
        &&& "inputPassportElementAddress"@[9] == 'p'
        &&& "inputPassportElementAddress"@[19] == 't'
        &&& "inputPassportElementAddress"@[23] == 'r'
        &&& "inputPassportElementAddress"@[24] == 'e'
        &&& "messageBasicGroupChatCreate"@[9] == 's'
        &&& "messageBasicGroupChatCreate"@[19] == 'a'
        &&& "messageBasicGroupChatCreate"@[23] == 'e'
        &&& "messageBasicGroupChatCreate"@[24] == 'a'
        &&& "messageForwardOriginChannel"@[9] == 'r'
        &&& "messageForwardOriginChannel"@[19] == 'n'
        &&& "messageForwardOriginChannel"@[23] == 'n'
        &&& "messageForwardOriginChannel"@[24] == 'n'
        &&& "messagePassportDataReceived"@[9] == 's'
        &&& "messagePassportDataReceived"@[19] == 'R'
        &&& "messagePassportDataReceived"@[23] == 'i'
        &&& "messagePassportDataReceived"@[24] == 'v'
        &&& "messagePaymentSuccessfulBot"@[9] == 'y'
        &&& "messagePaymentSuccessfulBot"@[19] == 's'
        &&& "messagePaymentSuccessfulBot"@[23] == 'l'
        &&& "messagePaymentSuccessfulBot"@[24] == 'B'
        &&& "messageSupergroupChatCreate"@[9] == 'p'
        &&& "messageSupergroupChatCreate"@[19] == 'a'
        &&& "messageSupergroupChatCreate"@[23] == 'e'
        &&& "messageSupergroupChatCreate"@[24] == 'a'
        &&& "passportElementEmailAddress"@[9] == 'l'
        &&& "passportElementEmailAddress"@[19] == 'l'
        &&& "passportElementEmailAddress"@[23] == 'r'
        &&& "passportElementEmailAddress"@[24] == 'e'
        &&& "passportElementIdentityCard"@[9] == 'l'
        &&& "passportElementIdentityCard"@[19] == 't'
        &&& "passportElementIdentityCard"@[23] == 'C'
        &&& "passportElementIdentityCard"@[24] == 'a'
        &&& "passportElementTypePassport"@[9] == 'l'
        &&& "passportElementTypePassport"@[19] == 'P'
        &&& "passportElementTypePassport"@[23] == 'p'
        &&& "passportElementTypePassport"@[24] == 'o'
        &&& "pushMessageContentAnimation"@[9] == 'g'
        &&& "pushMessageContentAnimation"@[19] == 'n'
        &&& "pushMessageContentAnimation"@[23] == 't'
        &&& "pushMessageContentAnimation"@[24] == 'i'
        &&& "pushMessageContentGameScore"@[9] == 'g'
        &&& "pushMessageContentGameScore"@[19] == 'a'
        &&& "pushMessageContentGameScore"@[23] == 'c'
        &&& "pushMessageContentGameScore"@[24] == 'o'
        &&& "pushMessageContentVideoNote"@[9] == 'g'
        &&& "pushMessageContentVideoNote"@[19] == 'i'
        &&& "pushMessageContentVideoNote"@[23] == 'N'
        &&& "pushMessageContentVideoNote"@[24] == 'o'
        &&& "pushMessageContentVoiceNote"@[9] == 'g'
        &&& "pushMessageContentVoiceNote"@[19] == 'o'
        &&& "pushMessageContentVoiceNote"@[23] == 'N'
        &&& "pushMessageContentVoiceNote"@[24] == 'o'
        &&& "searchMessagesFilterMention"@[9] == 's'
        &&& "searchMessagesFilterMention"@[19] == 'r'
        &&& "searchMessagesFilterMention"@[23] == 't'
        &&& "searchMessagesFilterMention"@[24] == 'i'
        &&& "storageStatisticsByFileType"@[9] == 'a'
        &&& "storageStatisticsByFileType"@[19] == 'F'
        &&& "storageStatisticsByFileType"@[23] == 'T'
        &&& "storageStatisticsByFileType"@[24] == 'y'
        &&& "supergroupMembersFilterBots"@[9] == 'p'
        &&& "supergroupMembersFilterBots"@[19] == 'l'
        &&& "supergroupMembersFilterBots"@[23] == 'B'
        &&& "supergroupMembersFilterBots"@[24] == 'o'
        &&& "textEntityTypeStrikethrough"@[9] == 'y'
        &&& "textEntityTypeStrikethrough"@[19] == 'e'
        &&& "textEntityTypeStrikethrough"@[23] == 'o'
        &&& "textEntityTypeStrikethrough"@[24] == 'u'
        &&& "topChatCategoryForwardChats"@[9] == 't'
        &&& "topChatCategoryForwardChats"@[19] == 'a'
        &&& "topChatCategoryForwardChats"@[23] == 'h'
        &&& "topChatCategoryForwardChats"@[24] == 'a'
        &&& "updateChatOnlineMemberCount"@[9] == 't'
        &&& "updateChatOnlineMemberCount"@[19] == 'b'
        &&& "updateChatOnlineMemberCount"@[23] == 'o'
        &&& "updateChatOnlineMemberCount"@[24] == 'u'
        &&& "updateNewChosenInlineResult"@[9] == 'C'
        &&& "updateNewChosenInlineResult"@[19] == 'n'
        &&& "updateNewChosenInlineResult"@[23] == 's'
        &&& "updateNewChosenInlineResult"@[24] == 'u'
    }

    /// What tells apart the discriminators of 27 characters.
    proof fn tags_spelled_27()
        ensures
            Self::spelled_27(),
    {
        reveal_strlit("autoDownloadSettingsPresets");
        reveal_strlit("chatActionBarReportAddBlock");
        reveal_strlit("chatActionUploadingDocument");
        reveal_strlit("chatEventDescriptionChanged");
        reveal_strlit("chatEventPermissionsChanged");
        reveal_strlit("chatMembersFilterRestricted");
        reveal_strlit("chatReportReasonPornography");
        reveal_strlit("inlineKeyboardButtonTypeBuy");
        reveal_strlit("inlineKeyboardButtonTypeUrl");
        reveal_strlit("inputInlineQueryResultAudio");
        reveal_strlit("inputInlineQueryResultPhoto");
        reveal_strlit("inputInlineQueryResultVenue");
        reveal_strlit("inputInlineQueryResultVideo");
        reveal_strlit("inputPassportElementAddress");
        reveal_strlit("messageBasicGroupChatCreate");
        reveal_strlit("messageForwardOriginChannel");
        reveal_strlit("messagePassportDataReceived");
        reveal_strlit("messagePaymentSuccessfulBot");
        reveal_strlit("messageSupergroupChatCreate");
        reveal_strlit("passportElementEmailAddress");
        reveal_strlit("passportElementIdentityCard");
        reveal_strlit("passportElementTypePassport");
        reveal_strlit("pushMessageContentAnimation");
        reveal_strlit("pushMessageContentGameScore");
        reveal_strlit("pushMessageContentVideoNote");
        reveal_strlit("pushMessageContentVoiceNote");
        reveal_strlit("searchMessagesFilterMention");
        reveal_strlit("storageStatisticsByFileType");
        reveal_strlit("supergroupMembersFilterBots");
        reveal_strlit("textEntityTypeStrikethrough");
        reveal_strlit("topChatCategoryForwardChats");
        reveal_strlit("updateChatOnlineMemberCount");
        reveal_strlit("updateNewChosenInlineResult");
    }

    spec fn spelled_28() -> bool {
        &&& "authorizationStateLoggingOut"@[11] == 'o'
        &&& "authorizationStateLoggingOut"@[20] == 'g'
        &&& "canTransferOwnershipResultOk"@[11] == 'O'
        &&& "canTransferOwnershipResultOk"@[20] == 'R'
        &&& "chatActionRecordingVideoNote"@[11] == 'e'
        &&& "chatActionRecordingVideoNote"@[20] == 'i'
        &&& "chatActionRecordingVoiceNote"@[11] == 'e'
        &&& "chatActionRecordingVoiceNote"@[20] == 'o'
        &&& "chatActionUploadingVideoNote"@[11] == 'p'
        &&& "chatActionUploadingVideoNote"@[20] == 'i'
        &&& "chatActionUploadingVoiceNote"@[11] == 'p'
        &&& "chatActionUploadingVoiceNote"@[20] == 'o'
        &&& "chatEventSignMessagesToggled"@[11] == 'g'
        &&& "chatEventSignMessagesToggled"@[20] == 's'
        &&& "deviceTokenMicrosoftPushVoIP"@[11] == 'M'
        &&& "deviceTokenMicrosoftPushVoIP"@[20] == 'P'
        &&& "inputPassportElementPassport"@[11] == 'r'
        &&& "inputPassportElementPassport"@[20] == 'P'
        &&& "passportElementBankStatement"@[11] == 'm'
        &&& "passportElementBankStatement"@[20] == 't'
        &&& "passportElementDriverLicense"@[11] == 'm'
        &&& "passportElementDriverLicense"@[20] == 'r'
        &&& "pushMessageContentMediaAlbum"@[11] == 'C'
        &&& "pushMessageContentMediaAlbum"@[20] == 'd'
        &&& "searchMessagesFilterDocument"@[11] == 'g'
        &&& "searchMessagesFilterDocument"@[20] == 'D'
        &&& "updateChatUnreadMentionCount"@[11] == 'n'
        &&& "updateChatUnreadMentionCount"@[20] == 'i'
        &&& "updateNewInlineCallbackQuery"@[11] == 'l'
        &&& "updateNewInlineCallbackQuery"@[20] == 'a'
        &&& "userPrivacySettingAllowCalls"@[11] == 'S'
        &&& "userPrivacySettingAllowCalls"@[20] == 'l'
        &&& "userPrivacySettingShowStatus"@[11] == 'S'
        &&& "userPrivacySettingShowStatus"@[20] == 'o'
    }

    /// What tells apart the discriminators of 28 characters.
    proof fn tags_spelled_28()
        ensures
            Self::spelled_28(),
    {
        reveal_strlit("authorizationStateLoggingOut");
        reveal_strlit("canTransferOwnershipResultOk");
        reveal_strlit("chatActionRecordingVideoNote");
        reveal_strlit("chatActionRecordingVoiceNote");
        reveal_strlit("chatActionUploadingVideoNote");
        reveal_strlit("chatActionUploadingVoiceNote");
        reveal_strlit("chatEventSignMessagesToggled");
        reveal_strlit("deviceTokenMicrosoftPushVoIP");
        reveal_strlit("inputPassportElementPassport");
        reveal_strlit("passportElementBankStatement");
        reveal_strlit("passportElementDriverLicense");
        reveal_strlit("pushMessageContentMediaAlbum");
        reveal_strlit("searchMessagesFilterDocument");
        reveal_strlit("updateChatUnreadMentionCount");
        reveal_strlit("updateNewInlineCallbackQuery");
        reveal_strlit("userPrivacySettingAllowCalls");
        reveal_strlit("userPrivacySettingShowStatus");
    }

    spec fn spelled_29() -> bool {
        &&& "callDiscardReasonDisconnected"@[0] == 'c'
        &&& "callDiscardReasonDisconnected"@[23] == 'n'
        &&& "chatActionBarSharePhoneNumber"@[0] == 'c'
        &&& "chatActionBarSharePhoneNumber"@[23] == 'N'
        &&& "chatEventSlowModeDelayChanged"@[0] == 'c'
        &&& "chatEventSlowModeDelayChanged"@[23] == 'h'
        &&& "chatMemberStatusAdministrator"@[0] == 'c'
        &&& "chatMemberStatusAdministrator"@[23] == 't'
        &&& "inputInlineQueryResultArticle"@[0] == 'i'
        &&& "inputInlineQueryResultArticle"@[23] == 'r'
        &&& "inputInlineQueryResultContact"@[0] == 'i'
        &&& "inputInlineQueryResultContact"@[23] == 'o'
        &&& "inputInlineQueryResultSticker"@[0] == 'i'
        &&& "inputInlineQueryResultSticker"@[23] == 't'
        &&& "keyboardButtonTypeRequestPoll"@[0] == 'k'
        &&& "keyboardButtonTypeRequestPoll"@[23] == 's'
        &&& "notificationGroupTypeMentions"@[0] == 'n'
        &&& "notificationGroupTypeMentions"@[23] == 'n'
        &&& "notificationGroupTypeMessages"@[0] == 'n'
        &&& "notificationGroupTypeMessages"@[23] == 's'
        &&& "notificationTypeNewSecretChat"@[0] == 'n'
        &&& "notificationTypeNewSecretChat"@[23] == 'e'
        &&& "pageBlockVerticalAlignmentTop"@[0] == 'p'
        &&& "pageBlockVerticalAlignmentTop"@[23] == 'e'
        &&& "publicChatTypeIsLocationBased"@[0] == 'p'
        &&& "publicChatTypeIsLocationBased"@[23] == 'n'
        &&& "searchMessagesFilterAnimation"@[0] == 's'
        &&& "searchMessagesFilterAnimation"@[23] == 'm'
        &&& "searchMessagesFilterChatPhoto"@[0] == 's'
        &&& "searchMessagesFilterChatPhoto"@[23] == 't'
        &&& "searchMessagesFilterVideoNote"@[0] == 's'
        &&& "searchMessagesFilterVideoNote"@[23] == 'e'
        &&& "searchMessagesFilterVoiceNote"@[0] == 's'
        &&& "searchMessagesFilterVoiceNote"@[23] == 'c'
        &&& "supergroupMembersFilterBanned"@[0] == 's'
        &&& "supergroupMembersFilterBanned"@[23] == 'B'
        &&& "supergroupMembersFilterRecent"@[0] == 's'
        &&& "supergroupMembersFilterRecent"@[23] == 'R'
        &&& "supergroupMembersFilterSearch"@[0] == 's'
        &&& "supergroupMembersFilterSearch"@[23] == 'S'
        &&& "updateMessageSendAcknowledged"@[0] == 'u'
        &&& "updateMessageSendAcknowledged"@[23] == 'l'
        &&& "updateUserPrivacySettingRules"@[0] == 'u'
        &&& "updateUserPrivacySettingRules"@[23] == 'g'
    }

    /// What tells apart the discriminators of 29 characters.
    proof fn tags_spelled_29()
        ensures
            Self::spelled_29(),
    {
        reveal_strlit("callDiscardReasonDisconnected");
        reveal_strlit("chatActionBarSharePhoneNumber");
        reveal_strlit("chatEventSlowModeDelayChanged");
        reveal_strlit("chatMemberStatusAdministrator");
        reveal_strlit("inputInlineQueryResultArticle");
        reveal_strlit("inputInlineQueryResultContact");
        reveal_strlit("inputInlineQueryResultSticker");
        reveal_strlit("keyboardButtonTypeRequestPoll");
        reveal_strlit("notificationGroupTypeMentions");
        reveal_strlit("notificationGroupTypeMessages");
        reveal_strlit("notificationTypeNewSecretChat");
        reveal_strlit("pageBlockVerticalAlignmentTop");
        reveal_strlit("publicChatTypeIsLocationBased");
        reveal_strlit("searchMessagesFilterAnimation");
        reveal_strlit("searchMessagesFilterChatPhoto");
        reveal_strlit("searchMessagesFilterVideoNote");
        reveal_strlit("searchMessagesFilterVoiceNote");
        reveal_strlit("supergroupMembersFilterBanned");
        reveal_strlit("supergroupMembersFilterRecent");
        reveal_strlit("supergroupMembersFilterSearch");
        reveal_strlit("updateMessageSendAcknowledged");
        reveal_strlit("updateUserPrivacySettingRules");
    }

    spec fn spelled_30() -> bool {
        &&& "authorizationStateWaitPassword"@[15] == 'a'
        &&& "authorizationStateWaitPassword"@[22] == 'P'
        &&& "inputInlineQueryResultDocument"@[15] == 'y'
        &&& "inputInlineQueryResultDocument"@[22] == 'D'
        &&& "inputInlineQueryResultLocation"@[15] == 'y'
        &&& "inputInlineQueryResultLocation"@[22] == 'L'
        &&& "languagePackStringValueDeleted"@[15] == 'i'
        &&& "languagePackStringValueDeleted"@[22] == 'e'
        &&& "messageForwardOriginHiddenUser"@[15] == 'r'
        &&& "messageForwardOriginHiddenUser"@[22] == 'd'
        &&& "notificationTypeNewPushMessage"@[15] == 'e'
        &&& "notificationTypeNewPushMessage"@[22] == 'h'
        &&& "passportElementErrorSourceFile"@[15] == 'E'
        &&& "passportElementErrorSourceFile"@[22] == 'u'
        &&& "passportElementPersonalDetails"@[15] == 'P'
        &&& "passportElementPersonalDetails"@[22] == 'l'
        &&& "passportElementRentalAgreement"@[15] == 'R'
        &&& "passportElementRentalAgreement"@[22] == 'g'
        &&& "passportElementTypePhoneNumber"@[15] == 'T'
        &&& "passportElementTypePhoneNumber"@[22] == 'n'
        &&& "passportElementTypeUtilityBill"@[15] == 'T'
        &&& "passportElementTypeUtilityBill"@[22] == 'l'
        &&& "searchMessagesFilterMissedCall"@[15] == 'i'
        &&& "searchMessagesFilterMissedCall"@[22] == 's'
        &&& "updateChatHasScheduledMessages"@[15] == 'h'
        &&& "updateChatHasScheduledMessages"@[22] == 'M'
        &&& "updateChatNotificationSettings"@[15] == 'i'
        &&& "updateChatNotificationSettings"@[22] == 'S'
        &&& "updateHavePendingNotifications"@[15] == 'n'
        &&& "updateHavePendingNotifications"@[22] == 'i'
        &&& "userPrivacySettingRuleAllowAll"@[15] == 'i'
        &&& "userPrivacySettingRuleAllowAll"@[22] == 'A'
    }

    /// What tells apart the discriminators of 30 characters.
    proof fn tags_spelled_30()
        ensures
            Self::spelled_30(),
    {
        reveal_strlit("authorizationStateWaitPassword");
        reveal_strlit("inputInlineQueryResultDocument");
        reveal_strlit("inputInlineQueryResultLocation");
        reveal_strlit("languagePackStringValueDeleted");
        reveal_strlit("messageForwardOriginHiddenUser");
        reveal_strlit("notificationTypeNewPushMessage");
        reveal_strlit("passportElementErrorSourceFile");
        reveal_strlit("passportElementPersonalDetails");
        reveal_strlit("passportElementRentalAgreement");
        reveal_strlit("passportElementTypePhoneNumber");
        reveal_strlit("passportElementTypeUtilityBill");
        reveal_strlit("searchMessagesFilterMissedCall");
        reveal_strlit("updateChatHasScheduledMessages");
        reveal_strlit("updateChatNotificationSettings");
        reveal_strlit("updateHavePendingNotifications");
        reveal_strlit("userPrivacySettingRuleAllowAll");
    }

    spec fn spelled_31() -> bool {
        &&& "authenticationCodeTypeFlashCall"@[0] == 'a'
        &&& "authenticationCodeTypeFlashCall"@[20] == 'p'
        &&& "chatMembersFilterAdministrators"@[0] == 'c'
        &&& "chatMembersFilterAdministrators"@[20] == 'i'
        &&& "inputInlineQueryResultVoiceNote"@[0] == 'i'
        &&& "inputInlineQueryResultVoiceNote"@[20] == 'l'
        &&& "inputPassportElementPhoneNumber"@[0] == 'i'
        &&& "inputPassportElementPhoneNumber"@[20] == 'P'
        &&& "inputPassportElementUtilityBill"@[0] == 'i'
        &&& "inputPassportElementUtilityBill"@[20] == 'U'
        &&& "languagePackStringValueOrdinary"@[0] == 'l'
        &&& "languagePackStringValueOrdinary"@[20] == 'l'
        &&& "loginUrlInfoRequestConfirmation"@[0] == 'l'
        &&& "loginUrlInfoRequestConfirmation"@[20] == 'o'
        &&& "notificationGroupTypeSecretChat"@[0] == 'n'
        &&& "notificationGroupTypeSecretChat"@[20] == 'e'
        &&& "passportElementErrorSourceFiles"@[0] == 'p'
        &&& "passportElementErrorSourceFiles"@[20] == 'S'
        &&& "passportElementInternalPassport"@[0] == 'p'
        &&& "passportElementInternalPassport"@[20] == 'n'
        &&& "passportElementTypeEmailAddress"@[0] == 'p'
        &&& "passportElementTypeEmailAddress"@[20] == 'm'
        &&& "passportElementTypeIdentityCard"@[0] == 'p'
        &&& "passportElementTypeIdentityCard"@[20] == 'd'
        &&& "supergroupMembersFilterContacts"@[0] == 's'
        &&& "supergroupMembersFilterContacts"@[20] == 't'
        &&& "updateMessageLiveLocationViewed"@[0] == 'u'
        &&& "updateMessageLiveLocationViewed"@[20] == 'a'
        &&& "updateScopeNotificationSettings"@[0] == 'u'
        &&& "updateScopeNotificationSettings"@[20] == 'i'
    }

    /// What tells apart the discriminators of 31 characters.
    proof fn tags_spelled_31()
        ensures
            Self::spelled_31(),
    {
        reveal_strlit("authenticationCodeTypeFlashCall");
        reveal_strlit("chatMembersFilterAdministrators");
        reveal_strlit("inputInlineQueryResultVoiceNote");
        reveal_strlit("inputPassportElementPhoneNumber");
        reveal_strlit("inputPassportElementUtilityBill");
        reveal_strlit("languagePackStringValueOrdinary");
        reveal_strlit("loginUrlInfoRequestConfirmation");
        reveal_strlit("notificationGroupTypeSecretChat");
        reveal_strlit("passportElementErrorSourceFiles");
        reveal_strlit("passportElementInternalPassport");
        reveal_strlit("passportElementTypeEmailAddress");
        reveal_strlit("passportElementTypeIdentityCard");
        reveal_strlit("supergroupMembersFilterContacts");
        reveal_strlit("updateMessageLiveLocationViewed");
        reveal_strlit("updateScopeNotificationSettings");
    }

    spec fn spelled_32() -> bool {
        &&& "connectionStateConnectingToProxy"@[22] == 'i'
        &&& "connectionStateConnectingToProxy"@[26] == 'o'
        &&& "connectionStateWaitingForNetwork"@[22] == 'F'
        &&& "connectionStateWaitingForNetwork"@[26] == 'e'
        &&& "inlineKeyboardButtonTypeCallback"@[22] == 'p'
        &&& "inlineKeyboardButtonTypeCallback"@[26] == 'l'
        &&& "inlineKeyboardButtonTypeLoginUrl"@[22] == 'p'
        &&& "inlineKeyboardButtonTypeLoginUrl"@[26] == 'g'
        &&& "inputPassportElementEmailAddress"@[22] == 'a'
        &&& "inputPassportElementEmailAddress"@[26] == 'd'
        &&& "inputPassportElementIdentityCard"@[22] == 'e'
        &&& "inputPassportElementIdentityCard"@[26] == 't'
        &&& "messageSchedulingStateSendAtDate"@[22] == 'S'
        &&& "messageSchedulingStateSendAtDate"@[26] == 'A'
        &&& "pageBlockHorizontalAlignmentLeft"@[22] == 'g'
        &&& "pageBlockHorizontalAlignmentLeft"@[26] == 'n'
        &&& "pageBlockVerticalAlignmentBottom"@[22] == 'm'
        &&& "pageBlockVerticalAlignmentBottom"@[26] == 'B'
        &&& "pageBlockVerticalAlignmentMiddle"@[22] == 'm'
        &&& "pageBlockVerticalAlignmentMiddle"@[26] == 'M'
        &&& "passportElementErrorSourceSelfie"@[22] == 'u'
        &&& "passportElementErrorSourceSelfie"@[26] == 'S'
        &&& "passportElementTypeBankStatement"@[22] == 'k'
        &&& "passportElementTypeBankStatement"@[26] == 't'
        &&& "passportElementTypeDriverLicense"@[22] == 'v'
        &&& "passportElementTypeDriverLicense"@[26] == 'i'
        &&& "pushMessageContentChatAddMembers"@[22] == 'A'
        &&& "pushMessageContentChatAddMembers"@[26] == 'e'
        &&& "pushMessageContentChatJoinByLink"@[22] == 'J'
        &&& "pushMessageContentChatJoinByLink"@[26] == 'B'
        &&& "userPrivacySettingRuleAllowUsers"@[22] == 'A'
        &&& "userPrivacySettingRuleAllowUsers"@[26] == 'w'
    }

    /// What tells apart the discriminators of 32 characters.
    proof fn tags_spelled_32()
        ensures
            Self::spelled_32(),
    {
        reveal_strlit("connectionStateConnectingToProxy");
        reveal_strlit("connectionStateWaitingForNetwork");
        reveal_strlit("inlineKeyboardButtonTypeCallback");
        reveal_strlit("inlineKeyboardButtonTypeLoginUrl");
        reveal_strlit("inputPassportElementEmailAddress");
        reveal_strlit("inputPassportElementIdentityCard");
        reveal_strlit("messageSchedulingStateSendAtDate");
        reveal_strlit("pageBlockHorizontalAlignmentLeft");
        reveal_strlit("pageBlockVerticalAlignmentBottom");
        reveal_strlit("pageBlockVerticalAlignmentMiddle");
        reveal_strlit("passportElementErrorSourceSelfie");
        reveal_strlit("passportElementTypeBankStatement");
        reveal_strlit("passportElementTypeDriverLicense");
        reveal_strlit("pushMessageContentChatAddMembers");
        reveal_strlit("pushMessageContentChatJoinByLink");
        reveal_strlit("userPrivacySettingRuleAllowUsers");
    }

    spec fn spelled_33() -> bool {
        &&& "authorizationStateWaitPhoneNumber"@[1] == 'u'
        &&& "authorizationStateWaitPhoneNumber"@[22] == 'P'
        &&& "authorizationStateWaitPhoneNumber"@[28] == 'u'
        &&& "chatReportReasonUnrelatedLocation"@[1] == 'h'
        &&& "chatReportReasonUnrelatedLocation"@[22] == 't'
        &&& "chatReportReasonUnrelatedLocation"@[28] == 'a'
        &&& "deviceTokenFirebaseCloudMessaging"@[1] == 'e'
        &&& "deviceTokenFirebaseCloudMessaging"@[22] == 'u'
        &&& "deviceTokenFirebaseCloudMessaging"@[28] == 'a'
        &&& "inputInlineQueryResultAnimatedGif"@[1] == 'n'
        &&& "inputInlineQueryResultAnimatedGif"@[22] == 'A'
        &&& "inputInlineQueryResultAnimatedGif"@[28] == 'e'
        &&& "inputPassportElementBankStatement"@[1] == 'n'
        &&& "inputPassportElementBankStatement"@[22] == 'n'
        &&& "inputPassportElementBankStatement"@[28] == 'e'
        &&& "inputPassportElementDriverLicense"@[1] == 'n'
        &&& "inputPassportElementDriverLicense"@[22] == 'i'
        &&& "inputPassportElementDriverLicense"@[28] == 'c'
        &&& "keyboardButtonTypeRequestLocation"@[1] == 'e'
        &&& "keyboardButtonTypeRequestLocation"@[22] == 'e'
        &&& "keyboardButtonTypeRequestLocation"@[28] == 'a'
        &&& "languagePackStringValuePluralized"@[1] == 'a'
        &&& "languagePackStringValuePluralized"@[22] == 'e'
        &&& "languagePackStringValuePluralized"@[28] == 'l'
        &&& "pageBlockHorizontalAlignmentRight"@[1] == 'a'
        &&& "pageBlockHorizontalAlignmentRight"@[22] == 'g'
        &&& "pageBlockHorizontalAlignmentRight"@[28] == 'R'
        &&& "phoneNumberAuthenticationSettings"@[1] == 'h'
        &&& "phoneNumberAuthenticationSettings"@[22] == 'i'
        &&& "phoneNumberAuthenticationSettings"@[28] == 't'
        &&& "pushMessageContentChatChangePhoto"@[1] == 'u'
        &&& "pushMessageContentChatChangePhoto"@[22] == 'C'
        &&& "pushMessageContentChatChangePhoto"@[28] == 'P'
        &&& "pushMessageContentChatChangeTitle"@[1] == 'u'
        &&& "pushMessageContentChatChangeTitle"@[22] == 'C'
        &&& "pushMessageContentChatChangeTitle"@[28] == 'T'
        &&& "pushMessageContentMessageForwards"@[1] == 'u'
        &&& "pushMessageContentMessageForwards"@[22] == 'a'
        &&& "pushMessageContentMessageForwards"@[28] == 'w'
        &&& "pushMessageContentScreenshotTaken"@[1] == 'u'
        &&& "pushMessageContentScreenshotTaken"@[22] == 'e'
        &&& "pushMessageContentScreenshotTaken"@[28] == 'T'
        &&& "searchMessagesFilterPhotoAndVideo"@[1] == 'e'
        &&& "searchMessagesFilterPhotoAndVideo"@[22] == 'o'
        &&& "searchMessagesFilterPhotoAndVideo"@[28] == 'V'
        &&& "searchMessagesFilterUnreadMention"@[1] == 'e'
        &&& "searchMessagesFilterUnreadMention"@[22] == 'r'
        &&& "searchMessagesFilterUnreadMention"@[28] == 'n'
        &&& "supergroupMembersFilterRestricted"@[1] == 'u'
        &&& "supergroupMembersFilterRestricted"@[22] == 'r'
        &&& "supergroupMembersFilterRestricted"@[28] == 'i'
        &&& "userPrivacySettingRuleRestrictAll"@[1] == 's'
        &&& "userPrivacySettingRuleRestrictAll"@[22] == 'R'
        &&& "userPrivacySettingRuleRestrictAll"@[28] == 'c'
        &&& "userPrivacySettingShowPhoneNumber"@[1] == 's'
        &&& "userPrivacySettingShowPhoneNumber"@[22] == 'P'
        &&& "userPrivacySettingShowPhoneNumber"@[28] == 'u'
    }

    /// What tells apart the discriminators of 33 characters.
    proof fn tags_spelled_33()
        ensures
            Self::spelled_33(),
    {
        reveal_strlit("authorizationStateWaitPhoneNumber");
        reveal_strlit("chatReportReasonUnrelatedLocation");
        reveal_strlit("deviceTokenFirebaseCloudMessaging");
        reveal_strlit("inputInlineQueryResultAnimatedGif");
        reveal_strlit("inputPassportElementBankStatement");
        reveal_strlit("inputPassportElementDriverLicense");
        reveal_strlit("keyboardButtonTypeRequestLocation");
        reveal_strlit("languagePackStringValuePluralized");
        reveal_strlit("pageBlockHorizontalAlignmentRight");
        reveal_strlit("phoneNumberAuthenticationSettings");
        reveal_strlit("pushMessageContentChatChangePhoto");
        reveal_strlit("pushMessageContentChatChangeTitle");
        reveal_strlit("pushMessageContentMessageForwards");
        reveal_strlit("pushMessageContentScreenshotTaken");
        reveal_strlit("searchMessagesFilterPhotoAndVideo");
        reveal_strlit("searchMessagesFilterUnreadMention");
        reveal_strlit("supergroupMembersFilterRestricted");
        reveal_strlit("userPrivacySettingRuleRestrictAll");
        reveal_strlit("userPrivacySettingShowPhoneNumber");
    }

    spec fn spelled_34() -> bool {
        &&& "authorizationStateWaitRegistration"@[18] == 'W'
        &&& "authorizationStateWaitRegistration"@[19] == 'a'
        &&& "emailAddressAuthenticationCodeInfo"@[18] == 't'
        &&& "emailAddressAuthenticationCodeInfo"@[19] == 'i'
        &&& "pageBlockHorizontalAlignmentCenter"@[18] == 'l'
        &&& "pageBlockHorizontalAlignmentCenter"@[19] == 'A'
        &&& "passportElementTypePersonalDetails"@[18] == 'e'
        &&& "passportElementTypePersonalDetails"@[19] == 'P'
        &&& "passportElementTypeRentalAgreement"@[18] == 'e'
        &&& "passportElementTypeRentalAgreement"@[19] == 'R'
        &&& "pushMessageContentChatDeleteMember"@[18] == 'C'
        &&& "pushMessageContentChatDeleteMember"@[19] == 'h'
        &&& "userPrivacySettingAllowChatInvites"@[18] == 'A'
        &&& "userPrivacySettingAllowChatInvites"@[19] == 'l'
        &&& "userPrivacySettingShowProfilePhoto"@[18] == 'S'
        &&& "userPrivacySettingShowProfilePhoto"@[19] == 'h'
    }

    /// What tells apart the discriminators of 34 characters.
    proof fn tags_spelled_34()
        ensures
            Self::spelled_34(),
    {
        reveal_strlit("authorizationStateWaitRegistration");
        reveal_strlit("emailAddressAuthenticationCodeInfo");
        reveal_strlit("pageBlockHorizontalAlignmentCenter");
        reveal_strlit("passportElementTypePersonalDetails");
        reveal_strlit("passportElementTypeRentalAgreement");
        reveal_strlit("pushMessageContentChatDeleteMember");
        reveal_strlit("userPrivacySettingAllowChatInvites");
        reveal_strlit("userPrivacySettingShowProfilePhoto");
    }

    spec fn spelled_35() -> bool {
        &&& "authorizationStateWaitEncryptionKey"@[25] == 'r'
        &&& "authorizationStateWaitEncryptionKey"@[26] == 'y'
        &&& "inputInlineQueryResultAnimatedMpeg4"@[25] == 'm'
        &&& "inputInlineQueryResultAnimatedMpeg4"@[26] == 'a'
        &&& "inputPassportElementErrorSourceFile"@[25] == 'S'
        &&& "inputPassportElementErrorSourceFile"@[26] == 'o'
        &&& "inputPassportElementPersonalDetails"@[25] == 'n'
        &&& "inputPassportElementPersonalDetails"@[26] == 'a'
        &&& "inputPassportElementRentalAgreement"@[25] == 'l'
        &&& "inputPassportElementRentalAgreement"@[26] == 'A'
        &&& "notificationSettingsScopeGroupChats"@[25] == 'G'
        &&& "notificationSettingsScopeGroupChats"@[26] == 'r'
        &&& "passportElementErrorSourceDataField"@[25] == 'e'
        &&& "passportElementErrorSourceDataField"@[26] == 'D'
        &&& "passportElementErrorSourceFrontSide"@[25] == 'e'
        &&& "passportElementErrorSourceFrontSide"@[26] == 'F'
        &&& "passportElementPassportRegistration"@[25] == 'g'
        &&& "passportElementPassportRegistration"@[26] == 'i'
        &&& "passportElementTypeInternalPassport"@[25] == 'a'
        &&& "passportElementTypeInternalPassport"@[26] == 'l'
        &&& "pushMessageContentContactRegistered"@[25] == 'R'
        &&& "pushMessageContentContactRegistered"@[26] == 'e'
        &&& "userPrivacySettingRuleAllowContacts"@[25] == 'o'
        &&& "userPrivacySettingRuleAllowContacts"@[26] == 'w'
        &&& "userPrivacySettingRuleRestrictUsers"@[25] == 't'
        &&& "userPrivacySettingRuleRestrictUsers"@[26] == 'r'
    }

    /// What tells apart the discriminators of 35 characters.
    proof fn tags_spelled_35()
        ensures
            Self::spelled_35(),
    {
        reveal_strlit("authorizationStateWaitEncryptionKey");
        reveal_strlit("inputInlineQueryResultAnimatedMpeg4");
        reveal_strlit("inputPassportElementErrorSourceFile");
        reveal_strlit("inputPassportElementPersonalDetails");
        reveal_strlit("inputPassportElementRentalAgreement");
        reveal_strlit("notificationSettingsScopeGroupChats");
        reveal_strlit("passportElementErrorSourceDataField");
        reveal_strlit("passportElementErrorSourceFrontSide");
        reveal_strlit("passportElementPassportRegistration");
        reveal_strlit("passportElementTypeInternalPassport");
        reveal_strlit("pushMessageContentContactRegistered");
        reveal_strlit("userPrivacySettingRuleAllowContacts");
        reveal_strlit("userPrivacySettingRuleRestrictUsers");
    }

    spec fn spelled_36() -> bool {
        &&& "chatActionBarReportUnrelatedLocation"@[25] == 't'
        &&& "inlineKeyboardButtonTypeCallbackGame"@[25] == 'a'
        &&& "inlineKeyboardButtonTypeSwitchInline"@[25] == 'w'
        &&& "inputPassportElementErrorSourceFiles"@[25] == 'S'
        &&& "inputPassportElementInternalPassport"@[25] == 'n'
        &&& "keyboardButtonTypeRequestPhoneNumber"@[25] == 'P'
        &&& "messageSchedulingStateSendWhenOnline"@[25] == 'd'
        &&& "passportElementTemporaryRegistration"@[25] == 'e'
        &&& "updateChatDefaultDisableNotification"@[25] == 'o'
    }

    /// What tells apart the discriminators of 36 characters.
    proof fn tags_spelled_36()
        ensures
            Self::spelled_36(),
    {
        reveal_strlit("chatActionBarReportUnrelatedLocation");
        reveal_strlit("inlineKeyboardButtonTypeCallbackGame");
        reveal_strlit("inlineKeyboardButtonTypeSwitchInline");
        reveal_strlit("inputPassportElementErrorSourceFiles");
        reveal_strlit("inputPassportElementInternalPassport");
        reveal_strlit("keyboardButtonTypeRequestPhoneNumber");
        reveal_strlit("messageSchedulingStateSendWhenOnline");
        reveal_strlit("passportElementTemporaryRegistration");
        reveal_strlit("updateChatDefaultDisableNotification");
    }

    spec fn spelled_37() -> bool {
        &&& "authenticationCodeTypeTelegramMessage"@[26] == 'g'
        &&& "authorizationStateWaitTdlibParameters"@[26] == 'b'
        &&& "chatEventIsAllHistoryAvailableToggled"@[26] == 'a'
        &&& "inputPassportElementErrorSourceSelfie"@[26] == 'o'
        &&& "notificationSettingsScopeChannelChats"@[26] == 'h'
        &&& "notificationSettingsScopePrivateChats"@[26] == 'r'
        &&& "passportElementErrorSourceReverseSide"@[26] == 'R'
        &&& "passportElementErrorSourceUnspecified"@[26] == 'U'
        &&& "searchMessagesFilterVoiceAndVideoNote"@[26] == 'n'
        &&& "supergroupMembersFilterAdministrators"@[26] == 'i'
    }

    /// What tells apart the discriminators of 37 characters.
    proof fn tags_spelled_37()
        ensures
            Self::spelled_37(),
    {
        reveal_strlit("authenticationCodeTypeTelegramMessage");
        reveal_strlit("authorizationStateWaitTdlibParameters");
        reveal_strlit("chatEventIsAllHistoryAvailableToggled");
        reveal_strlit("inputPassportElementErrorSourceSelfie");
        reveal_strlit("notificationSettingsScopeChannelChats");
        reveal_strlit("notificationSettingsScopePrivateChats");
        reveal_strlit("passportElementErrorSourceReverseSide");
        reveal_strlit("passportElementErrorSourceUnspecified");
        reveal_strlit("searchMessagesFilterVoiceAndVideoNote");
        reveal_strlit("supergroupMembersFilterAdministrators");
    }

    spec fn spelled_38() -> bool {
        &&& "checkChatUsernameResultUsernameInvalid"@[22] == 't'
        &&& "pushMessageContentBasicGroupChatCreate"@[22] == 'c'
        &&& "userPrivacySettingAllowPeerToPeerCalls"@[22] == 'w'
        &&& "userPrivacySettingRuleAllowChatMembers"@[22] == 'A'
        &&& "userPrivacySettingRuleRestrictContacts"@[22] == 'R'
    }

    /// What tells apart the discriminators of 38 characters.
    proof fn tags_spelled_38()
        ensures
            Self::spelled_38(),
    {
        reveal_strlit("checkChatUsernameResultUsernameInvalid");
        reveal_strlit("pushMessageContentBasicGroupChatCreate");
        reveal_strlit("userPrivacySettingAllowPeerToPeerCalls");
        reveal_strlit("userPrivacySettingRuleAllowChatMembers");
        reveal_strlit("userPrivacySettingRuleRestrictContacts");
    }

    spec fn spelled_39() -> bool {
        &&& "checkChatUsernameResultUsernameOccupied"@[0] == 'c'
        &&& "passportElementTypePassportRegistration"@[0] == 'p'
    }

    /// What tells apart the discriminators of 39 characters.
    proof fn tags_spelled_39()
        ensures
            Self::spelled_39(),
    {
        reveal_strlit("checkChatUsernameResultUsernameOccupied");
        reveal_strlit("passportElementTypePassportRegistration");
    }

    spec fn spelled_40() -> bool {
        &&& "canTransferOwnershipResultPasswordNeeded"@[20] == 'R'
        &&& "canTransferOwnershipResultPasswordNeeded"@[31] == 'o'
        &&& "inputPassportElementErrorSourceDataField"@[20] == 'E'
        &&& "inputPassportElementErrorSourceDataField"@[31] == 'D'
        &&& "inputPassportElementErrorSourceFrontSide"@[20] == 'E'
        &&& "inputPassportElementErrorSourceFrontSide"@[31] == 'F'
        &&& "inputPassportElementPassportRegistration"@[20] == 'P'
        &&& "inputPassportElementPassportRegistration"@[31] == 'i'
        &&& "passportElementTypeTemporaryRegistration"@[20] == 'e'
        &&& "passportElementTypeTemporaryRegistration"@[31] == 'i'
    }

    /// What tells apart the discriminators of 40 characters.
    proof fn tags_spelled_40()
        ensures
            Self::spelled_40(),
    {
        reveal_strlit("canTransferOwnershipResultPasswordNeeded");
        reveal_strlit("inputPassportElementErrorSourceDataField");
        reveal_strlit("inputPassportElementErrorSourceFrontSide");
        reveal_strlit("inputPassportElementPassportRegistration");
        reveal_strlit("passportElementTypeTemporaryRegistration");
    }

    spec fn spelled_41() -> bool {
        &&& "canTransferOwnershipResultSessionTooFresh"@[3] == 'T'
        &&& "checkChatUsernameResultPublicChatsTooMuch"@[3] == 'c'
        &&& "inputPassportElementTemporaryRegistration"@[3] == 'u'
        &&& "passportElementErrorSourceTranslationFile"@[3] == 's'
        &&& "userPrivacySettingRuleRestrictChatMembers"@[3] == 'r'
    }

    /// What tells apart the discriminators of 41 characters.
    proof fn tags_spelled_41()
        ensures
            Self::spelled_41(),
    {
        reveal_strlit("canTransferOwnershipResultSessionTooFresh");
        reveal_strlit("checkChatUsernameResultPublicChatsTooMuch");
        reveal_strlit("inputPassportElementTemporaryRegistration");
        reveal_strlit("passportElementErrorSourceTranslationFile");
        reveal_strlit("userPrivacySettingRuleRestrictChatMembers");
    }

    spec fn spelled_42() -> bool {
        &&& "canTransferOwnershipResultPasswordTooFresh"@[31] == 'o'
        &&& "inputPassportElementErrorSourceReverseSide"@[31] == 'R'
        &&& "inputPassportElementErrorSourceUnspecified"@[31] == 'U'
        &&& "passportElementErrorSourceTranslationFiles"@[31] == 'l'
    }

    /// What tells apart the discriminators of 42 characters.
    proof fn tags_spelled_42()
        ensures
            Self::spelled_42(),
    {
        reveal_strlit("canTransferOwnershipResultPasswordTooFresh");
        reveal_strlit("inputPassportElementErrorSourceReverseSide");
        reveal_strlit("inputPassportElementErrorSourceUnspecified");
        reveal_strlit("passportElementErrorSourceTranslationFiles");
    }

    spec fn spelled_45() -> bool {
        &&& "authorizationStateWaitOtherDeviceConfirmation"@[0] == 'a'
        &&& "userPrivacySettingShowLinkInForwardedMessages"@[0] == 'u'
    }

    /// What tells apart the discriminators of 45 characters.
    proof fn tags_spelled_45()
        ensures
            Self::spelled_45(),
    {
        reveal_strlit("authorizationStateWaitOtherDeviceConfirmation");
        reveal_strlit("userPrivacySettingShowLinkInForwardedMessages");
    }

    spec fn spelled_46() -> bool {
        &&& "checkChatUsernameResultPublicGroupsUnavailable"@[0] == 'c'
        &&& "inputPassportElementErrorSourceTranslationFile"@[0] == 'i'
    }

    /// What tells apart the discriminators of 46 characters.
    proof fn tags_spelled_46()
        ensures
            Self::spelled_46(),
    {
        reveal_strlit("checkChatUsernameResultPublicGroupsUnavailable");
        reveal_strlit("inputPassportElementErrorSourceTranslationFile");
    }

    proof fn round_trip_1(x: Response, at: Seq<char>)
        ensures
            Self::rank(x) == 1 ==> Self::parse(x.wire(), at) == Ok::<Doc, Fault>(x.wire()),
    {
        reveal(<Response as Wire>::wire);
        match x {
            Self::Error(p) => {
                p.tag_known();
                Self::agrees_with_error(p.wire(), at);
                p.round_trip(at);
            },
            Self::Okay(p) => {
                p.tag_known();
                Self::agrees_with_okay(p.wire(), at);
                p.round_trip(at);
            },
            Self::TdlibParameters(p) => {
                p.tag_known();
                Self::agrees_with_tdlib_parameters(p.wire(), at);
                p.round_trip(at);
            },
            Self::AuthenticationCodeType(p) => {
                p.tag_known();
                Self::agrees_with_authentication_code_type(p.wire(), at);
                p.round_trip(at);
            },
            Self::AuthenticationCodeInfo(p) => {
                p.tag_known();
                Self::agrees_with_authentication_code_info(p.wire(), at);
                p.round_trip(at);
            },
            Self::EmailAddressAuthenticationCodeInfo(p) => {
                p.tag_known();
                Self::agrees_with_email_address_authentication_code_info(p.wire(), at);
                p.round_trip(at);
            },
            Self::TextEntity(p) => {
                p.tag_known();
                Self::agrees_with_text_entity(p.wire(), at);
                p.round_trip(at);
            },
            Self::TextEntities(p) => {
                p.tag_known();
                Self::agrees_with_text_entities(p.wire(), at);
                p.round_trip(at);
            },
            Self::FormattedText(p) => {
                p.tag_known();
                Self::agrees_with_formatted_text(p.wire(), at);
                p.round_trip(at);
            },
            Self::TermsOfService(p) => {
                p.tag_known();
                Self::agrees_with_terms_of_service(p.wire(), at);
                p.round_trip(at);
            },
            Self::AuthorizationState(p) => {
                p.tag_known();
                Self::agrees_with_authorization_state(p.wire(), at);
                p.round_trip(at);
            },
            Self::PasswordState(p) => {
                p.tag_known();
                Self::agrees_with_password_state(p.wire(), at);
                p.round_trip(at);
            },
            Self::RecoveryEmailAddress(p) => {
                p.tag_known();
                Self::agrees_with_recovery_email_address(p.wire(), at);
                p.round_trip(at);
            },
            Self::TemporaryPasswordState(p) => {
                p.tag_known();
                Self::agrees_with_temporary_password_state(p.wire(), at);
                p.round_trip(at);
            },
            Self::LocalFile(p) => {
                p.tag_known();
                Self::agrees_with_local_file(p.wire(), at);
                p.round_trip(at);
            },
            Self::RemoteFile(p) => {
                p.tag_known();
                Self::agrees_with_remote_file(p.wire(), at);
                p.round_trip(at);
            },
            Self::File(p) => {
                p.tag_known();
                Self::agrees_with_file(p.wire(), at);
                p.round_trip(at);
            },
            Self::InputFile(p) => {
                p.tag_known();
                Self::agrees_with_input_file(p.wire(), at);
                p.round_trip(at);
            },
            Self::PhotoSize(p) => {
                p.tag_known();
                Self::agrees_with_photo_size(p.wire(), at);
                p.round_trip(at);
            },
            Self::Minithumbnail(p) => {
                p.tag_known();
                Self::agrees_with_minithumbnail(p.wire(), at);
                p.round_trip(at);
            },
            Self::MaskPoint(p) => {
                p.tag_known();
                Self::agrees_with_mask_point(p.wire(), at);
                p.round_trip(at);
            },
            Self::MaskPosition(p) => {
                p.tag_known();
                Self::agrees_with_mask_position(p.wire(), at);
                p.round_trip(at);
            },
            Self::PollOption(p) => {
                p.tag_known();
                Self::agrees_with_poll_option(p.wire(), at);
                p.round_trip(at);
            },
            Self::PollType(p) => {
                p.tag_known();
                Self::agrees_with_poll_type(p.wire(), at);
                p.round_trip(at);
            },
            Self::Animation(p) => {
                p.tag_known();
                Self::agrees_with_animation(p.wire(), at);
                p.round_trip(at);
            },
            Self::Audio(p) => {
                p.tag_known();
                Self::agrees_with_audio(p.wire(), at);
                p.round_trip(at);
            },
            Self::Document(p) => {
                p.tag_known();
                Self::agrees_with_document(p.wire(), at);
                p.round_trip(at);
            },
            Self::Photo(p) => {
                p.tag_known();
                Self::agrees_with_photo(p.wire(), at);
                p.round_trip(at);
            },
            Self::Sticker(p) => {
                p.tag_known();
                Self::agrees_with_sticker(p.wire(), at);
                p.round_trip(at);
            },
            Self::Video(p) => {
                p.tag_known();
                Self::agrees_with_video(p.wire(), at);
                p.round_trip(at);
            },
            Self::VideoNote(p) => {
                p.tag_known();
                Self::agrees_with_video_note(p.wire(), at);
                p.round_trip(at);
            },
            Self::VoiceNote(p) => {
                p.tag_known();
                Self::agrees_with_voice_note(p.wire(), at);
                p.round_trip(at);
            },
            Self::Contact(p) => {
                p.tag_known();
                Self::agrees_with_contact(p.wire(), at);
                p.round_trip(at);
            },
            Self::Location(p) => {
                p.tag_known();
                Self::agrees_with_location(p.wire(), at);
                p.round_trip(at);
            },
            Self::Venue(p) => {
                p.tag_known();
                Self::agrees_with_venue(p.wire(), at);
                p.round_trip(at);
            },
            Self::Game(p) => {
                p.tag_known();
                Self::agrees_with_game(p.wire(), at);
                p.round_trip(at);
            },
            Self::Poll(p) => {
                p.tag_known();
                Self::agrees_with_poll(p.wire(), at);
                p.round_trip(at);
            },
            Self::ProfilePhoto(p) => {
                p.tag_known();
                Self::agrees_with_profile_photo(p.wire(), at);
                p.round_trip(at);
            },
            Self::ChatPhoto(p) => {
                p.tag_known();
                Self::agrees_with_chat_photo(p.wire(), at);
                p.round_trip(at);
            },
            Self::UserType(p) => {
                p.tag_known();
                Self::agrees_with_user_type(p.wire(), at);
                p.round_trip(at);
            },
            _ => {},
        }
    }

    proof fn tag_known_1(x: Response)
        ensures
            Self::rank(x) == 1 ==> tag_of(x.wire()) is Some && Self::route(
                tag_of(x.wire())->Some_0,
            ) != 0,
    {
        reveal(<Response as Wire>::wire);
        match x {
            Self::Error(p) => {
                p.tag_known();
                Self::routes_to_error(tag_of(p.wire())->Some_0);
            },
            Self::Okay(p) => {
                p.tag_known();
                Self::routes_to_okay(tag_of(p.wire())->Some_0);
            },
            Self::TdlibParameters(p) => {
                p.tag_known();
                Self::routes_to_tdlib_parameters(tag_of(p.wire())->Some_0);
            },
            Self::AuthenticationCodeType(p) => {
                p.tag_known();
                Self::routes_to_authentication_code_type(tag_of(p.wire())->Some_0);
            },
            Self::AuthenticationCodeInfo(p) => {
                p.tag_known();
                Self::routes_to_authentication_code_info(tag_of(p.wire())->Some_0);
            },
            Self::EmailAddressAuthenticationCodeInfo(p) => {
                p.tag_known();
                Self::routes_to_email_address_authentication_code_info(tag_of(p.wire())->Some_0);
            },
            Self::TextEntity(p) => {
                p.tag_known();
                Self::routes_to_text_entity(tag_of(p.wire())->Some_0);
            },
            Self::TextEntities(p) => {
                p.tag_known();
                Self::routes_to_text_entities(tag_of(p.wire())->Some_0);
            },
            Self::FormattedText(p) => {
                p.tag_known();
                Self::routes_to_formatted_text(tag_of(p.wire())->Some_0);
            },
            Self::TermsOfService(p) => {
                p.tag_known();
                Self::routes_to_terms_of_service(tag_of(p.wire())->Some_0);
            },
            Self::AuthorizationState(p) => {
                p.tag_known();
                Self::routes_to_authorization_state(tag_of(p.wire())->Some_0);
            },
            Self::PasswordState(p) => {
                p.tag_known();
                Self::routes_to_password_state(tag_of(p.wire())->Some_0);
            },
            Self::RecoveryEmailAddress(p) => {
                p.tag_known();
                Self::routes_to_recovery_email_address(tag_of(p.wire())->Some_0);
            },
            Self::TemporaryPasswordState(p) => {
                p.tag_known();
                Self::routes_to_temporary_password_state(tag_of(p.wire())->Some_0);
            },
            Self::LocalFile(p) => {
                p.tag_known();
                Self::routes_to_local_file(tag_of(p.wire())->Some_0);
            },
            Self::RemoteFile(p) => {
                p.tag_known();
                Self::routes_to_remote_file(tag_of(p.wire())->Some_0);
            },
            Self::File(p) => {
                p.tag_known();
                Self::routes_to_file(tag_of(p.wire())->Some_0);
            },
            Self::InputFile(p) => {
                p.tag_known();
                Self::routes_to_input_file(tag_of(p.wire())->Some_0);
            },
            Self::PhotoSize(p) => {
                p.tag_known();
                Self::routes_to_photo_size(tag_of(p.wire())->Some_0);
            },
            Self::Minithumbnail(p) => {
                p.tag_known();
                Self::routes_to_minithumbnail(tag_of(p.wire())->Some_0);
            },
            Self::MaskPoint(p) => {
                p.tag_known();
                Self::routes_to_mask_point(tag_of(p.wire())->Some_0);
            },
            Self::MaskPosition(p) => {
                p.tag_known();
                Self::routes_to_mask_position(tag_of(p.wire())->Some_0);
            },
            Self::PollOption(p) => {
                p.tag_known();
                Self::routes_to_poll_option(tag_of(p.wire())->Some_0);
            },
            Self::PollType(p) => {
                p.tag_known();
                Self::routes_to_poll_type(tag_of(p.wire())->Some_0);
            },
            Self::Animation(p) => {
                p.tag_known();
                Self::routes_to_animation(tag_of(p.wire())->Some_0);
            },
            Self::Audio(p) => {
                p.tag_known();
                Self::routes_to_audio(tag_of(p.wire())->Some_0);
            },
            Self::Document(p) => {
                p.tag_known();
                Self::routes_to_document(tag_of(p.wire())->Some_0);
            },
            Self::Photo(p) => {
                p.tag_known();
                Self::routes_to_photo(tag_of(p.wire())->Some_0);
            },
            Self::Sticker(p) => {
                p.tag_known();
                Self::routes_to_sticker(tag_of(p.wire())->Some_0);
            },
            Self::Video(p) => {
                p.tag_known();
                Self::routes_to_video(tag_of(p.wire())->Some_0);
            },
            Self::VideoNote(p) => {
                p.tag_known();
                Self::routes_to_video_note(tag_of(p.wire())->Some_0);
            },
            Self::VoiceNote(p) => {
                p.tag_known();
                Self::routes_to_voice_note(tag_of(p.wire())->Some_0);
            },
            Self::Contact(p) => {
                p.tag_known();
                Self::routes_to_contact(tag_of(p.wire())->Some_0);
            },
            Self::Location(p) => {
                p.tag_known();
                Self::routes_to_location(tag_of(p.wire())->Some_0);
            },
            Self::Venue(p) => {
                p.tag_known();
                Self::routes_to_venue(tag_of(p.wire())->Some_0);
            },
            Self::Game(p) => {
                p.tag_known();
                Self::routes_to_game(tag_of(p.wire())->Some_0);
            },
            Self::Poll(p) => {
                p.tag_known();
                Self::routes_to_poll(tag_of(p.wire())->Some_0);
            },
            Self::ProfilePhoto(p) => {
                p.tag_known();
                Self::routes_to_profile_photo(tag_of(p.wire())->Some_0);
            },
            Self::ChatPhoto(p) => {
                p.tag_known();
                Self::routes_to_chat_photo(tag_of(p.wire())->Some_0);
            },
            Self::UserType(p) => {
                p.tag_known();
                Self::routes_to_user_type(tag_of(p.wire())->Some_0);
            },
            _ => {},
        }
    }

    proof fn round_trip_2(x: Response, at: Seq<char>)
        ensures
            Self::rank(x) == 2 ==> Self::parse(x.wire(), at) == Ok::<Doc, Fault>(x.wire()),
    {
        reveal(<Response as Wire>::wire);
        match x {
            Self::BotCommand(p) => {
                p.tag_known();
                Self::agrees_with_bot_command(p.wire(), at);
                p.round_trip(at);
            },
            Self::BotInfo(p) => {
                p.tag_known();
                Self::agrees_with_bot_info(p.wire(), at);
                p.round_trip(at);
            },
            Self::ChatLocation(p) => {
                p.tag_known();
                Self::agrees_with_chat_location(p.wire(), at);
                p.round_trip(at);
            },
            Self::User(p) => {
                p.tag_known();
                Self::agrees_with_user(p.wire(), at);
                p.round_trip(at);
            },
            Self::UserFullInfo(p) => {
                p.tag_known();
                Self::agrees_with_user_full_info(p.wire(), at);
                p.round_trip(at);
            },
            Self::UserProfilePhoto(p) => {
                p.tag_known();
                Self::agrees_with_user_profile_photo(p.wire(), at);
                p.round_trip(at);
            },
            Self::UserProfilePhotos(p) => {
                p.tag_known();
                Self::agrees_with_user_profile_photos(p.wire(), at);
                p.round_trip(at);
            },
            Self::Users(p) => {
                p.tag_known();
                Self::agrees_with_users(p.wire(), at);
                p.round_trip(at);
            },
            Self::ChatAdministrator(p) => {
                p.tag_known();
                Self::agrees_with_chat_administrator(p.wire(), at);
                p.round_trip(at);
            },
            Self::ChatAdministrators(p) => {
                p.tag_known();
                Self::agrees_with_chat_administrators(p.wire(), at);
                p.round_trip(at);
            },
            Self::ChatPermissions(p) => {
                p.tag_known();
                Self::agrees_with_chat_permissions(p.wire(), at);
                p.round_trip(at);
            },
            Self::ChatMemberStatus(p) => {
                p.tag_known();
                Self::agrees_with_chat_member_status(p.wire(), at);
                p.round_trip(at);
            },
            Self::ChatMember(p) => {
                p.tag_known();
                Self::agrees_with_chat_member(p.wire(), at);
                p.round_trip(at);
            },
            Self::ChatMembers(p) => {
                p.tag_known();
                Self::agrees_with_chat_members(p.wire(), at);
                p.round_trip(at);
            },
            Self::ChatMembersFilter(p) => {
                p.tag_known();
                Self::agrees_with_chat_members_filter(p.wire(), at);
                p.round_trip(at);
            },
            Self::SupergroupMembersFilter(p) => {
                p.tag_known();
                Self::agrees_with_supergroup_members_filter(p.wire(), at);
                p.round_trip(at);
            },
            Self::BasicGroup(p) => {
                p.tag_known();
                Self::agrees_with_basic_group(p.wire(), at);
                p.round_trip(at);
            },
            Self::BasicGroupFullInfo(p) => {
                p.tag_known();
                Self::agrees_with_basic_group_full_info(p.wire(), at);
                p.round_trip(at);
            },
            Self::Supergroup(p) => {
                p.tag_known();
                Self::agrees_with_supergroup(p.wire(), at);
                p.round_trip(at);
            },
            Self::SupergroupFullInfo(p) => {
                p.tag_known();
                Self::agrees_with_supergroup_full_info(p.wire(), at);
                p.round_trip(at);
            },
            Self::SecretChatState(p) => {
                p.tag_known();
                Self::agrees_with_secret_chat_state(p.wire(), at);
                p.round_trip(at);
            },
            Self::SecretChat(p) => {
                p.tag_known();
                Self::agrees_with_secret_chat(p.wire(), at);
                p.round_trip(at);
            },
            Self::MessageForwardOrigin(p) => {
                p.tag_known();
                Self::agrees_with_message_forward_origin(p.wire(), at);
                p.round_trip(at);
            },
            Self::MessageForwardInfo(p) => {
                p.tag_known();
                Self::agrees_with_message_forward_info(p.wire(), at);
                p.round_trip(at);
            },
            Self::MessageSendingState(p) => {
                p.tag_known();
                Self::agrees_with_message_sending_state(p.wire(), at);
                p.round_trip(at);
            },
            Self::Message(p) => {
                p.tag_known();
                Self::agrees_with_message(p.wire(), at);
                p.round_trip(at);
            },
            Self::Messages(p) => {
                p.tag_known();
                Self::agrees_with_messages(p.wire(), at);
                p.round_trip(at);
            },
            Self::FoundMessages(p) => {
                p.tag_known();
                Self::agrees_with_found_messages(p.wire(), at);
                p.round_trip(at);
            },
            Self::NotificationSettingsScope(p) => {
                p.tag_known();
                Self::agrees_with_notification_settings_scope(p.wire(), at);
                p.round_trip(at);
            },
            Self::ChatNotificationSettings(p) => {
                p.tag_known();
                Self::agrees_with_chat_notification_settings(p.wire(), at);
                p.round_trip(at);
            },
            Self::ScopeNotificationSettings(p) => {
                p.tag_known();
                Self::agrees_with_scope_notification_settings(p.wire(), at);
                p.round_trip(at);
            },
            Self::DraftMessage(p) => {
                p.tag_known();
                Self::agrees_with_draft_message(p.wire(), at);
                p.round_trip(at);
            },
            Self::ChatType(p) => {
                p.tag_known();
                Self::agrees_with_chat_type(p.wire(), at);
                p.round_trip(at);
            },
            Self::ChatList(p) => {
                p.tag_known();
                Self::agrees_with_chat_list(p.wire(), at);
                p.round_trip(at);
            },
            Self::Chat(p) => {
                p.tag_known();
                Self::agrees_with_chat(p.wire(), at);
                p.round_trip(at);
            },
            Self::Chats(p) => {
                p.tag_known();
                Self::agrees_with_chats(p.wire(), at);
                p.round_trip(at);
            },
            Self::ChatNearby(p) => {
                p.tag_known();
                Self::agrees_with_chat_nearby(p.wire(), at);
                p.round_trip(at);
            },
            Self::ChatsNearby(p) => {
                p.tag_known();
                Self::agrees_with_chats_nearby(p.wire(), at);
                p.round_trip(at);
            },
            Self::ChatInviteLink(p) => {
                p.tag_known();
                Self::agrees_with_chat_invite_link(p.wire(), at);
                p.round_trip(at);
            },
            Self::ChatInviteLinkInfo(p) => {
                p.tag_known();
                Self::agrees_with_chat_invite_link_info(p.wire(), at);
                p.round_trip(at);
            },
            _ => {},
        }
    }

    proof fn tag_known_2(x: Response)
        ensures
            Self::rank(x) == 2 ==> tag_of(x.wire()) is Some && Self::route(
                tag_of(x.wire())->Some_0,
            ) != 0,
    {
        reveal(<Response as Wire>::wire);
        match x {
            Self::BotCommand(p) => {
                p.tag_known();
                Self::routes_to_bot_command(tag_of(p.wire())->Some_0);
            },
            Self::BotInfo(p) => {
                p.tag_known();
                Self::routes_to_bot_info(tag_of(p.wire())->Some_0);
            },
            Self::ChatLocation(p) => {
                p.tag_known();
                Self::routes_to_chat_location(tag_of(p.wire())->Some_0);
            },
            Self::User(p) => {
                p.tag_known();
                Self::routes_to_user(tag_of(p.wire())->Some_0);
            },
            Self::UserFullInfo(p) => {
                p.tag_known();
                Self::routes_to_user_full_info(tag_of(p.wire())->Some_0);
            },
            Self::UserProfilePhoto(p) => {
                p.tag_known();
                Self::routes_to_user_profile_photo(tag_of(p.wire())->Some_0);
            },
            Self::UserProfilePhotos(p) => {
                p.tag_known();
                Self::routes_to_user_profile_photos(tag_of(p.wire())->Some_0);
            },
            Self::Users(p) => {
                p.tag_known();
                Self::routes_to_users(tag_of(p.wire())->Some_0);
            },
            Self::ChatAdministrator(p) => {
                p.tag_known();
                Self::routes_to_chat_administrator(tag_of(p.wire())->Some_0);
            },
            Self::ChatAdministrators(p) => {
                p.tag_known();
                Self::routes_to_chat_administrators(tag_of(p.wire())->Some_0);
            },
            Self::ChatPermissions(p) => {
                p.tag_known();
                Self::routes_to_chat_permissions(tag_of(p.wire())->Some_0);
            },
            Self::ChatMemberStatus(p) => {
                p.tag_known();
                Self::routes_to_chat_member_status(tag_of(p.wire())->Some_0);
            },
            Self::ChatMember(p) => {
                p.tag_known();
                Self::routes_to_chat_member(tag_of(p.wire())->Some_0);
            },
            Self::ChatMembers(p) => {
                p.tag_known();
                Self::routes_to_chat_members(tag_of(p.wire())->Some_0);
            },
            Self::ChatMembersFilter(p) => {
                p.tag_known();
                Self::routes_to_chat_members_filter(tag_of(p.wire())->Some_0);
            },
            Self::SupergroupMembersFilter(p) => {
                p.tag_known();
                Self::routes_to_supergroup_members_filter(tag_of(p.wire())->Some_0);
            },
            Self::BasicGroup(p) => {
                p.tag_known();
                Self::routes_to_basic_group(tag_of(p.wire())->Some_0);
            },
            Self::BasicGroupFullInfo(p) => {
                p.tag_known();
                Self::routes_to_basic_group_full_info(tag_of(p.wire())->Some_0);
            },
            Self::Supergroup(p) => {
                p.tag_known();
                Self::routes_to_supergroup(tag_of(p.wire())->Some_0);
            },
            Self::SupergroupFullInfo(p) => {
                p.tag_known();
                Self::routes_to_supergroup_full_info(tag_of(p.wire())->Some_0);
            },
            Self::SecretChatState(p) => {
                p.tag_known();
                Self::routes_to_secret_chat_state(tag_of(p.wire())->Some_0);
            },
            Self::SecretChat(p) => {
                p.tag_known();
                Self::routes_to_secret_chat(tag_of(p.wire())->Some_0);
            },
            Self::MessageForwardOrigin(p) => {
                p.tag_known();
                Self::routes_to_message_forward_origin(tag_of(p.wire())->Some_0);
            },
            Self::MessageForwardInfo(p) => {
                p.tag_known();
                Self::routes_to_message_forward_info(tag_of(p.wire())->Some_0);
            },
            Self::MessageSendingState(p) => {
                p.tag_known();
                Self::routes_to_message_sending_state(tag_of(p.wire())->Some_0);
            },
            Self::Message(p) => {
                p.tag_known();
                Self::routes_to_message(tag_of(p.wire())->Some_0);
            },
            Self::Messages(p) => {
                p.tag_known();
                Self::routes_to_messages(tag_of(p.wire())->Some_0);
            },
            Self::FoundMessages(p) => {
                p.tag_known();
                Self::routes_to_found_messages(tag_of(p.wire())->Some_0);
            },
            Self::NotificationSettingsScope(p) => {
                p.tag_known();
                Self::routes_to_notification_settings_scope(tag_of(p.wire())->Some_0);
            },
            Self::ChatNotificationSettings(p) => {
                p.tag_known();
                Self::routes_to_chat_notification_settings(tag_of(p.wire())->Some_0);
            },
            Self::ScopeNotificationSettings(p) => {
                p.tag_known();
                Self::routes_to_scope_notification_settings(tag_of(p.wire())->Some_0);
            },
            Self::DraftMessage(p) => {
                p.tag_known();
                Self::routes_to_draft_message(tag_of(p.wire())->Some_0);
            },
            Self::ChatType(p) => {
                p.tag_known();
                Self::routes_to_chat_type(tag_of(p.wire())->Some_0);
            },
            Self::ChatList(p) => {
                p.tag_known();
                Self::routes_to_chat_list(tag_of(p.wire())->Some_0);
            },
            Self::Chat(p) => {
                p.tag_known();
                Self::routes_to_chat(tag_of(p.wire())->Some_0);
            },
            Self::Chats(p) => {
                p.tag_known();
                Self::routes_to_chats(tag_of(p.wire())->Some_0);
            },
            Self::ChatNearby(p) => {
                p.tag_known();
                Self::routes_to_chat_nearby(tag_of(p.wire())->Some_0);
            },
            Self::ChatsNearby(p) => {
                p.tag_known();
                Self::routes_to_chats_nearby(tag_of(p.wire())->Some_0);
            },
            Self::ChatInviteLink(p) => {
                p.tag_known();
                Self::routes_to_chat_invite_link(tag_of(p.wire())->Some_0);
            },
            Self::ChatInviteLinkInfo(p) => {
                p.tag_known();
                Self::routes_to_chat_invite_link_info(tag_of(p.wire())->Some_0);
            },
            _ => {},
        }
    }

    proof fn round_trip_3(x: Response, at: Seq<char>)
        ensures
            Self::rank(x) == 3 ==> Self::parse(x.wire(), at) == Ok::<Doc, Fault>(x.wire()),
    {
        reveal(<Response as Wire>::wire);
        match x {
            Self::PublicChatType(p) => {
                p.tag_known();
                Self::agrees_with_public_chat_type(p.wire(), at);
                p.round_trip(at);
            },
            Self::ChatActionBar(p) => {
                p.tag_known();
                Self::agrees_with_chat_action_bar(p.wire(), at);
                p.round_trip(at);
            },
            Self::KeyboardButtonType(p) => {
                p.tag_known();
                Self::agrees_with_keyboard_button_type(p.wire(), at);
                p.round_trip(at);
            },
            Self::KeyboardButton(p) => {
                p.tag_known();
                Self::agrees_with_keyboard_button(p.wire(), at);
                p.round_trip(at);
            },
            Self::InlineKeyboardButtonType(p) => {
                p.tag_known();
                Self::agrees_with_inline_keyboard_button_type(p.wire(), at);
                p.round_trip(at);
            },
            Self::InlineKeyboardButton(p) => {
                p.tag_known();
                Self::agrees_with_inline_keyboard_button(p.wire(), at);
                p.round_trip(at);
            },
            Self::ReplyMarkup(p) => {
                p.tag_known();
                Self::agrees_with_reply_markup(p.wire(), at);
                p.round_trip(at);
            },
            Self::LoginUrlInfo(p) => {
                p.tag_known();
                Self::agrees_with_login_url_info(p.wire(), at);
                p.round_trip(at);
            },
            Self::RichText(p) => {
                p.tag_known();
                Self::agrees_with_rich_text(p.wire(), at);
                p.round_trip(at);
            },
            Self::PageBlockCaption(p) => {
                p.tag_known();
                Self::agrees_with_page_block_caption(p.wire(), at);
                p.round_trip(at);
            },
            Self::PageBlockListItem(p) => {
                p.tag_known();
                Self::agrees_with_page_block_list_item(p.wire(), at);
                p.round_trip(at);
            },
            Self::PageBlockHorizontalAlignment(p) => {
                p.tag_known();
                Self::agrees_with_page_block_horizontal_alignment(p.wire(), at);
                p.round_trip(at);
            },
            Self::PageBlockVerticalAlignment(p) => {
                p.tag_known();
                Self::agrees_with_page_block_vertical_alignment(p.wire(), at);
                p.round_trip(at);
            },
            Self::PageBlockTableCell(p) => {
                p.tag_known();
                Self::agrees_with_page_block_table_cell(p.wire(), at);
                p.round_trip(at);
            },
            Self::PageBlockRelatedArticle(p) => {
                p.tag_known();
                Self::agrees_with_page_block_related_article(p.wire(), at);
                p.round_trip(at);
            },
            Self::PageBlock(p) => {
                p.tag_known();
                Self::agrees_with_page_block(p.wire(), at);
                p.round_trip(at);
            },
            Self::WebPageInstantView(p) => {
                p.tag_known();
                Self::agrees_with_web_page_instant_view(p.wire(), at);
                p.round_trip(at);
            },
            Self::WebPage(p) => {
                p.tag_known();
                Self::agrees_with_web_page(p.wire(), at);
                p.round_trip(at);
            },
            Self::Address(p) => {
                p.tag_known();
                Self::agrees_with_address(p.wire(), at);
                p.round_trip(at);
            },
            Self::LabeledPricePart(p) => {
                p.tag_known();
                Self::agrees_with_labeled_price_part(p.wire(), at);
                p.round_trip(at);
            },
            Self::Invoice(p) => {
                p.tag_known();
                Self::agrees_with_invoice(p.wire(), at);
                p.round_trip(at);
            },
            Self::OrderInfo(p) => {
                p.tag_known();
                Self::agrees_with_order_info(p.wire(), at);
                p.round_trip(at);
            },
            Self::ShippingOption(p) => {
                p.tag_known();
                Self::agrees_with_shipping_option(p.wire(), at);
                p.round_trip(at);
            },
            Self::SavedCredentials(p) => {
                p.tag_known();
                Self::agrees_with_saved_credentials(p.wire(), at);
                p.round_trip(at);
            },
            Self::InputCredentials(p) => {
                p.tag_known();
                Self::agrees_with_input_credentials(p.wire(), at);
                p.round_trip(at);
            },
            Self::PaymentsProviderStripe(p) => {
                p.tag_known();
                Self::agrees_with_payments_provider_stripe(p.wire(), at);
                p.round_trip(at);
            },
            Self::PaymentForm(p) => {
                p.tag_known();
                Self::agrees_with_payment_form(p.wire(), at);
                p.round_trip(at);
            },
            Self::ValidatedOrderInfo(p) => {
                p.tag_known();
                Self::agrees_with_validated_order_info(p.wire(), at);
                p.round_trip(at);
            },
            Self::PaymentResult(p) => {
                p.tag_known();
                Self::agrees_with_payment_result(p.wire(), at);
                p.round_trip(at);
            },
            Self::PaymentReceipt(p) => {
                p.tag_known();
                Self::agrees_with_payment_receipt(p.wire(), at);
                p.round_trip(at);
            },
            Self::DatedFile(p) => {
                p.tag_known();
                Self::agrees_with_dated_file(p.wire(), at);
                p.round_trip(at);
            },
            Self::PassportElementType(p) => {
                p.tag_known();
                Self::agrees_with_passport_element_type(p.wire(), at);
                p.round_trip(at);
            },
            Self::Date(p) => {
                p.tag_known();
                Self::agrees_with_date(p.wire(), at);
                p.round_trip(at);
            },
            Self::PersonalDetails(p) => {
                p.tag_known();
                Self::agrees_with_personal_details(p.wire(), at);
                p.round_trip(at);
            },
            Self::IdentityDocument(p) => {
                p.tag_known();
                Self::agrees_with_identity_document(p.wire(), at);
                p.round_trip(at);
            },
            Self::InputIdentityDocument(p) => {
                p.tag_known();
                Self::agrees_with_input_identity_document(p.wire(), at);
                p.round_trip(at);
            },
            Self::PersonalDocument(p) => {
                p.tag_known();
                Self::agrees_with_personal_document(p.wire(), at);
                p.round_trip(at);
            },
            Self::InputPersonalDocument(p) => {
                p.tag_known();
                Self::agrees_with_input_personal_document(p.wire(), at);
                p.round_trip(at);
            },
            Self::PassportElement(p) => {
                p.tag_known();
                Self::agrees_with_passport_element(p.wire(), at);
                p.round_trip(at);
            },
            Self::InputPassportElement(p) => {
                p.tag_known();
                Self::agrees_with_input_passport_element(p.wire(), at);
                p.round_trip(at);
            },
            _ => {},
        }
    }

    proof fn tag_known_3(x: Response)
        ensures
            Self::rank(x) == 3 ==> tag_of(x.wire()) is Some && Self::route(
                tag_of(x.wire())->Some_0,
            ) != 0,
    {
        reveal(<Response as Wire>::wire);
        match x {
            Self::PublicChatType(p) => {
                p.tag_known();
                Self::routes_to_public_chat_type(tag_of(p.wire())->Some_0);
            },
            Self::ChatActionBar(p) => {
                p.tag_known();
                Self::routes_to_chat_action_bar(tag_of(p.wire())->Some_0);
            },
            Self::KeyboardButtonType(p) => {
                p.tag_known();
                Self::routes_to_keyboard_button_type(tag_of(p.wire())->Some_0);
            },
            Self::KeyboardButton(p) => {
                p.tag_known();
                Self::routes_to_keyboard_button(tag_of(p.wire())->Some_0);
            },
            Self::InlineKeyboardButtonType(p) => {
                p.tag_known();
                Self::routes_to_inline_keyboard_button_type(tag_of(p.wire())->Some_0);
            },
            Self::InlineKeyboardButton(p) => {
                p.tag_known();
                Self::routes_to_inline_keyboard_button(tag_of(p.wire())->Some_0);
            },
            Self::ReplyMarkup(p) => {
                p.tag_known();
                Self::routes_to_reply_markup(tag_of(p.wire())->Some_0);
            },
            Self::LoginUrlInfo(p) => {
                p.tag_known();
                Self::routes_to_login_url_info(tag_of(p.wire())->Some_0);
            },
            Self::RichText(p) => {
                p.tag_known();
                Self::routes_to_rich_text(tag_of(p.wire())->Some_0);
            },
            Self::PageBlockCaption(p) => {
                p.tag_known();
                Self::routes_to_page_block_caption(tag_of(p.wire())->Some_0);
            },
            Self::PageBlockListItem(p) => {
                p.tag_known();
                Self::routes_to_page_block_list_item(tag_of(p.wire())->Some_0);
            },
            Self::PageBlockHorizontalAlignment(p) => {
                p.tag_known();
                Self::routes_to_page_block_horizontal_alignment(tag_of(p.wire())->Some_0);
            },
            Self::PageBlockVerticalAlignment(p) => {
                p.tag_known();
                Self::routes_to_page_block_vertical_alignment(tag_of(p.wire())->Some_0);
            },
            Self::PageBlockTableCell(p) => {
                p.tag_known();
                Self::routes_to_page_block_table_cell(tag_of(p.wire())->Some_0);
            },
            Self::PageBlockRelatedArticle(p) => {
                p.tag_known();
                Self::routes_to_page_block_related_article(tag_of(p.wire())->Some_0);
            },
            Self::PageBlock(p) => {
                p.tag_known();
                Self::routes_to_page_block(tag_of(p.wire())->Some_0);
            },
            Self::WebPageInstantView(p) => {
                p.tag_known();
                Self::routes_to_web_page_instant_view(tag_of(p.wire())->Some_0);
            },
            Self::WebPage(p) => {
                p.tag_known();
                Self::routes_to_web_page(tag_of(p.wire())->Some_0);
            },
            Self::Address(p) => {
                p.tag_known();
                Self::routes_to_address(tag_of(p.wire())->Some_0);
            },
            Self::LabeledPricePart(p) => {
                p.tag_known();
                Self::routes_to_labeled_price_part(tag_of(p.wire())->Some_0);
            },
            Self::Invoice(p) => {
                p.tag_known();
                Self::routes_to_invoice(tag_of(p.wire())->Some_0);
            },
            Self::OrderInfo(p) => {
                p.tag_known();
                Self::routes_to_order_info(tag_of(p.wire())->Some_0);
            },
            Self::ShippingOption(p) => {
                p.tag_known();
                Self::routes_to_shipping_option(tag_of(p.wire())->Some_0);
            },
            Self::SavedCredentials(p) => {
                p.tag_known();
                Self::routes_to_saved_credentials(tag_of(p.wire())->Some_0);
            },
            Self::InputCredentials(p) => {
                p.tag_known();
                Self::routes_to_input_credentials(tag_of(p.wire())->Some_0);
            },
            Self::PaymentsProviderStripe(p) => {
                p.tag_known();
                Self::routes_to_payments_provider_stripe(tag_of(p.wire())->Some_0);
            },
            Self::PaymentForm(p) => {
                p.tag_known();
                Self::routes_to_payment_form(tag_of(p.wire())->Some_0);
            },
            Self::ValidatedOrderInfo(p) => {
                p.tag_known();
                Self::routes_to_validated_order_info(tag_of(p.wire())->Some_0);
            },
            Self::PaymentResult(p) => {
                p.tag_known();
                Self::routes_to_payment_result(tag_of(p.wire())->Some_0);
            },
            Self::PaymentReceipt(p) => {
                p.tag_known();
                Self::routes_to_payment_receipt(tag_of(p.wire())->Some_0);
            },
            Self::DatedFile(p) => {
                p.tag_known();
                Self::routes_to_dated_file(tag_of(p.wire())->Some_0);
            },
            Self::PassportElementType(p) => {
                p.tag_known();
                Self::routes_to_passport_element_type(tag_of(p.wire())->Some_0);
            },
            Self::Date(p) => {
                p.tag_known();
                Self::routes_to_date(tag_of(p.wire())->Some_0);
            },
            Self::PersonalDetails(p) => {
                p.tag_known();
                Self::routes_to_personal_details(tag_of(p.wire())->Some_0);
            },
            Self::IdentityDocument(p) => {
                p.tag_known();
                Self::routes_to_identity_document(tag_of(p.wire())->Some_0);
            },
            Self::InputIdentityDocument(p) => {
                p.tag_known();
                Self::routes_to_input_identity_document(tag_of(p.wire())->Some_0);
            },
            Self::PersonalDocument(p) => {
                p.tag_known();
                Self::routes_to_personal_document(tag_of(p.wire())->Some_0);
            },
            Self::InputPersonalDocument(p) => {
                p.tag_known();
                Self::routes_to_input_personal_document(tag_of(p.wire())->Some_0);
            },
            Self::PassportElement(p) => {
                p.tag_known();
                Self::routes_to_passport_element(tag_of(p.wire())->Some_0);
            },
            Self::InputPassportElement(p) => {
                p.tag_known();
                Self::routes_to_input_passport_element(tag_of(p.wire())->Some_0);
            },
            _ => {},
        }
    }

    proof fn round_trip_4(x: Response, at: Seq<char>)
        ensures
            Self::rank(x) == 4 ==> Self::parse(x.wire(), at) == Ok::<Doc, Fault>(x.wire()),
    {
        reveal(<Response as Wire>::wire);
        match x {
            Self::PassportElements(p) => {
                p.tag_known();
                Self::agrees_with_passport_elements(p.wire(), at);
                p.round_trip(at);
            },
            Self::PassportElementErrorSource(p) => {
                p.tag_known();
                Self::agrees_with_passport_element_error_source(p.wire(), at);
                p.round_trip(at);
            },
            Self::PassportElementError(p) => {
                p.tag_known();
                Self::agrees_with_passport_element_error(p.wire(), at);
                p.round_trip(at);
            },
            Self::PassportSuitableElement(p) => {
                p.tag_known();
                Self::agrees_with_passport_suitable_element(p.wire(), at);
                p.round_trip(at);
            },
            Self::PassportRequiredElement(p) => {
                p.tag_known();
                Self::agrees_with_passport_required_element(p.wire(), at);
                p.round_trip(at);
            },
            Self::PassportAuthorizationForm(p) => {
                p.tag_known();
                Self::agrees_with_passport_authorization_form(p.wire(), at);
                p.round_trip(at);
            },
            Self::PassportElementsWithErrors(p) => {
                p.tag_known();
                Self::agrees_with_passport_elements_with_errors(p.wire(), at);
                p.round_trip(at);
            },
            Self::EncryptedCredentials(p) => {
                p.tag_known();
                Self::agrees_with_encrypted_credentials(p.wire(), at);
                p.round_trip(at);
            },
            Self::EncryptedPassportElement(p) => {
                p.tag_known();
                Self::agrees_with_encrypted_passport_element(p.wire(), at);
                p.round_trip(at);
            },
            Self::InputPassportElementErrorSource(p) => {
                p.tag_known();
                Self::agrees_with_input_passport_element_error_source(p.wire(), at);
                p.round_trip(at);
            },
            Self::InputPassportElementError(p) => {
                p.tag_known();
                Self::agrees_with_input_passport_element_error(p.wire(), at);
                p.round_trip(at);
            },
            Self::MessageContent(p) => {
                p.tag_known();
                Self::agrees_with_message_content(p.wire(), at);
                p.round_trip(at);
            },
            Self::TextEntityType(p) => {
                p.tag_known();
                Self::agrees_with_text_entity_type(p.wire(), at);
                p.round_trip(at);
            },
            Self::InputThumbnail(p) => {
                p.tag_known();
                Self::agrees_with_input_thumbnail(p.wire(), at);
                p.round_trip(at);
            },
            Self::MessageSchedulingState(p) => {
                p.tag_known();
                Self::agrees_with_message_scheduling_state(p.wire(), at);
                p.round_trip(at);
            },
            Self::SendMessageOptions(p) => {
                p.tag_known();
                Self::agrees_with_send_message_options(p.wire(), at);
                p.round_trip(at);
            },
            Self::InputMessageContent(p) => {
                p.tag_known();
                Self::agrees_with_input_message_content(p.wire(), at);
                p.round_trip(at);
            },
            Self::SearchMessagesFilter(p) => {
                p.tag_known();
                Self::agrees_with_search_messages_filter(p.wire(), at);
                p.round_trip(at);
            },
            Self::ChatAction(p) => {
                p.tag_known();
                Self::agrees_with_chat_action(p.wire(), at);
                p.round_trip(at);
            },
            Self::UserStatus(p) => {
                p.tag_known();
                Self::agrees_with_user_status(p.wire(), at);
                p.round_trip(at);
            },
            Self::Stickers(p) => {
                p.tag_known();
                Self::agrees_with_stickers(p.wire(), at);
                p.round_trip(at);
            },
            Self::Emojis(p) => {
                p.tag_known();
                Self::agrees_with_emojis(p.wire(), at);
                p.round_trip(at);
            },
            Self::StickerSet(p) => {
                p.tag_known();
                Self::agrees_with_sticker_set(p.wire(), at);
                p.round_trip(at);
            },
            Self::StickerSetInfo(p) => {
                p.tag_known();
                Self::agrees_with_sticker_set_info(p.wire(), at);
                p.round_trip(at);
            },
            Self::StickerSets(p) => {
                p.tag_known();
                Self::agrees_with_sticker_sets(p.wire(), at);
                p.round_trip(at);
            },
            Self::CallDiscardReason(p) => {
                p.tag_known();
                Self::agrees_with_call_discard_reason(p.wire(), at);
                p.round_trip(at);
            },
            Self::CallProtocol(p) => {
                p.tag_known();
                Self::agrees_with_call_protocol(p.wire(), at);
                p.round_trip(at);
            },
            Self::CallConnection(p) => {
                p.tag_known();
                Self::agrees_with_call_connection(p.wire(), at);
                p.round_trip(at);
            },
            Self::CallId(p) => {
                p.tag_known();
                Self::agrees_with_call_id(p.wire(), at);
                p.round_trip(at);
            },
            Self::CallState(p) => {
                p.tag_known();
                Self::agrees_with_call_state(p.wire(), at);
                p.round_trip(at);
            },
            Self::CallProblem(p) => {
                p.tag_known();
                Self::agrees_with_call_problem(p.wire(), at);
                p.round_trip(at);
            },
            Self::Call(p) => {
                p.tag_known();
                Self::agrees_with_call(p.wire(), at);
                p.round_trip(at);
            },
            Self::PhoneNumberAuthenticationSettings(p) => {
                p.tag_known();
                Self::agrees_with_phone_number_authentication_settings(p.wire(), at);
                p.round_trip(at);
            },
            Self::Animations(p) => {
                p.tag_known();
                Self::agrees_with_animations(p.wire(), at);
                p.round_trip(at);
            },
            Self::ImportedContacts(p) => {
                p.tag_known();
                Self::agrees_with_imported_contacts(p.wire(), at);
                p.round_trip(at);
            },
            Self::HttpUrl(p) => {
                p.tag_known();
                Self::agrees_with_http_url(p.wire(), at);
                p.round_trip(at);
            },
            Self::InputInlineQueryResult(p) => {
                p.tag_known();
                Self::agrees_with_input_inline_query_result(p.wire(), at);
                p.round_trip(at);
            },
            Self::InlineQueryResult(p) => {
                p.tag_known();
                Self::agrees_with_inline_query_result(p.wire(), at);
                p.round_trip(at);
            },
            Self::InlineQueryResults(p) => {
                p.tag_known();
                Self::agrees_with_inline_query_results(p.wire(), at);
                p.round_trip(at);
            },
            Self::CallbackQueryPayload(p) => {
                p.tag_known();
                Self::agrees_with_callback_query_payload(p.wire(), at);
                p.round_trip(at);
            },
            _ => {},
        }
    }

    proof fn tag_known_4(x: Response)
        ensures
            Self::rank(x) == 4 ==> tag_of(x.wire()) is Some && Self::route(
                tag_of(x.wire())->Some_0,
            ) != 0,
    {
        reveal(<Response as Wire>::wire);
        match x {
            Self::PassportElements(p) => {
                p.tag_known();
                Self::routes_to_passport_elements(tag_of(p.wire())->Some_0);
            },
            Self::PassportElementErrorSource(p) => {
                p.tag_known();
                Self::routes_to_passport_element_error_source(tag_of(p.wire())->Some_0);
            },
            Self::PassportElementError(p) => {
                p.tag_known();
                Self::routes_to_passport_element_error(tag_of(p.wire())->Some_0);
            },
            Self::PassportSuitableElement(p) => {
                p.tag_known();
                Self::routes_to_passport_suitable_element(tag_of(p.wire())->Some_0);
            },
            Self::PassportRequiredElement(p) => {
                p.tag_known();
                Self::routes_to_passport_required_element(tag_of(p.wire())->Some_0);
            },
            Self::PassportAuthorizationForm(p) => {
                p.tag_known();
                Self::routes_to_passport_authorization_form(tag_of(p.wire())->Some_0);
            },
            Self::PassportElementsWithErrors(p) => {
                p.tag_known();
                Self::routes_to_passport_elements_with_errors(tag_of(p.wire())->Some_0);
            },
            Self::EncryptedCredentials(p) => {
                p.tag_known();
                Self::routes_to_encrypted_credentials(tag_of(p.wire())->Some_0);
            },
            Self::EncryptedPassportElement(p) => {
                p.tag_known();
                Self::routes_to_encrypted_passport_element(tag_of(p.wire())->Some_0);
            },
            Self::InputPassportElementErrorSource(p) => {
                p.tag_known();
                Self::routes_to_input_passport_element_error_source(tag_of(p.wire())->Some_0);
            },
            Self::InputPassportElementError(p) => {
                p.tag_known();
                Self::routes_to_input_passport_element_error(tag_of(p.wire())->Some_0);
            },
            Self::MessageContent(p) => {
                p.tag_known();
                Self::routes_to_message_content(tag_of(p.wire())->Some_0);
            },
            Self::TextEntityType(p) => {
                p.tag_known();
                Self::routes_to_text_entity_type(tag_of(p.wire())->Some_0);
            },
            Self::InputThumbnail(p) => {
                p.tag_known();
                Self::routes_to_input_thumbnail(tag_of(p.wire())->Some_0);
            },
            Self::MessageSchedulingState(p) => {
                p.tag_known();
                Self::routes_to_message_scheduling_state(tag_of(p.wire())->Some_0);
            },
            Self::SendMessageOptions(p) => {
                p.tag_known();
                Self::routes_to_send_message_options(tag_of(p.wire())->Some_0);
            },
            Self::InputMessageContent(p) => {
                p.tag_known();
                Self::routes_to_input_message_content(tag_of(p.wire())->Some_0);
            },
            Self::SearchMessagesFilter(p) => {
                p.tag_known();
                Self::routes_to_search_messages_filter(tag_of(p.wire())->Some_0);
            },
            Self::ChatAction(p) => {
                p.tag_known();
                Self::routes_to_chat_action(tag_of(p.wire())->Some_0);
            },
            Self::UserStatus(p) => {
                p.tag_known();
                Self::routes_to_user_status(tag_of(p.wire())->Some_0);
            },
            Self::Stickers(p) => {
                p.tag_known();
                Self::routes_to_stickers(tag_of(p.wire())->Some_0);
            },
            Self::Emojis(p) => {
                p.tag_known();
                Self::routes_to_emojis(tag_of(p.wire())->Some_0);
            },
            Self::StickerSet(p) => {
                p.tag_known();
                Self::routes_to_sticker_set(tag_of(p.wire())->Some_0);
            },
            Self::StickerSetInfo(p) => {
                p.tag_known();
                Self::routes_to_sticker_set_info(tag_of(p.wire())->Some_0);
            },
            Self::StickerSets(p) => {
                p.tag_known();
                Self::routes_to_sticker_sets(tag_of(p.wire())->Some_0);
            },
            Self::CallDiscardReason(p) => {
                p.tag_known();
                Self::routes_to_call_discard_reason(tag_of(p.wire())->Some_0);
            },
            Self::CallProtocol(p) => {
                p.tag_known();
                Self::routes_to_call_protocol(tag_of(p.wire())->Some_0);
            },
            Self::CallConnection(p) => {
                p.tag_known();
                Self::routes_to_call_connection(tag_of(p.wire())->Some_0);
            },
            Self::CallId(p) => {
                p.tag_known();
                Self::routes_to_call_id(tag_of(p.wire())->Some_0);
            },
            Self::CallState(p) => {
                p.tag_known();
                Self::routes_to_call_state(tag_of(p.wire())->Some_0);
            },
            Self::CallProblem(p) => {
                p.tag_known();
                Self::routes_to_call_problem(tag_of(p.wire())->Some_0);
            },
            Self::Call(p) => {
                p.tag_known();
                Self::routes_to_call(tag_of(p.wire())->Some_0);
            },
            Self::PhoneNumberAuthenticationSettings(p) => {
                p.tag_known();
                Self::routes_to_phone_number_authentication_settings(tag_of(p.wire())->Some_0);
            },
            Self::Animations(p) => {
                p.tag_known();
                Self::routes_to_animations(tag_of(p.wire())->Some_0);
            },
            Self::ImportedContacts(p) => {
                p.tag_known();
                Self::routes_to_imported_contacts(tag_of(p.wire())->Some_0);
            },
            Self::HttpUrl(p) => {
                p.tag_known();
                Self::routes_to_http_url(tag_of(p.wire())->Some_0);
            },
            Self::InputInlineQueryResult(p) => {
                p.tag_known();
                Self::routes_to_input_inline_query_result(tag_of(p.wire())->Some_0);
            },
            Self::InlineQueryResult(p) => {
                p.tag_known();
                Self::routes_to_inline_query_result(tag_of(p.wire())->Some_0);
            },
            Self::InlineQueryResults(p) => {
                p.tag_known();
                Self::routes_to_inline_query_results(tag_of(p.wire())->Some_0);
            },
            Self::CallbackQueryPayload(p) => {
                p.tag_known();
                Self::routes_to_callback_query_payload(tag_of(p.wire())->Some_0);
            },
            _ => {},
        }
    }

    proof fn round_trip_5(x: Response, at: Seq<char>)
        ensures
            Self::rank(x) == 5 ==> Self::parse(x.wire(), at) == Ok::<Doc, Fault>(x.wire()),
    {
        reveal(<Response as Wire>::wire);
        match x {
            Self::CallbackQueryAnswer(p) => {
                p.tag_known();
                Self::agrees_with_callback_query_answer(p.wire(), at);
                p.round_trip(at);
            },
            Self::CustomRequestResult(p) => {
                p.tag_known();
                Self::agrees_with_custom_request_result(p.wire(), at);
                p.round_trip(at);
            },
            Self::GameHighScore(p) => {
                p.tag_known();
                Self::agrees_with_game_high_score(p.wire(), at);
                p.round_trip(at);
            },
            Self::GameHighScores(p) => {
                p.tag_known();
                Self::agrees_with_game_high_scores(p.wire(), at);
                p.round_trip(at);
            },
            Self::ChatEventAction(p) => {
                p.tag_known();
                Self::agrees_with_chat_event_action(p.wire(), at);
                p.round_trip(at);
            },
            Self::ChatEvent(p) => {
                p.tag_known();
                Self::agrees_with_chat_event(p.wire(), at);
                p.round_trip(at);
            },
            Self::ChatEvents(p) => {
                p.tag_known();
                Self::agrees_with_chat_events(p.wire(), at);
                p.round_trip(at);
            },
            Self::ChatEventLogFilters(p) => {
                p.tag_known();
                Self::agrees_with_chat_event_log_filters(p.wire(), at);
                p.round_trip(at);
            },
            Self::LanguagePackStringValue(p) => {
                p.tag_known();
                Self::agrees_with_language_pack_string_value(p.wire(), at);
                p.round_trip(at);
            },
            Self::LanguagePackString(p) => {
                p.tag_known();
                Self::agrees_with_language_pack_string(p.wire(), at);
                p.round_trip(at);
            },
            Self::LanguagePackStrings(p) => {
                p.tag_known();
                Self::agrees_with_language_pack_strings(p.wire(), at);
                p.round_trip(at);
            },
            Self::LanguagePackInfo(p) => {
                p.tag_known();
                Self::agrees_with_language_pack_info(p.wire(), at);
                p.round_trip(at);
            },
            Self::LocalizationTargetInfo(p) => {
                p.tag_known();
                Self::agrees_with_localization_target_info(p.wire(), at);
                p.round_trip(at);
            },
            Self::DeviceToken(p) => {
                p.tag_known();
                Self::agrees_with_device_token(p.wire(), at);
                p.round_trip(at);
            },
            Self::PushReceiverId(p) => {
                p.tag_known();
                Self::agrees_with_push_receiver_id(p.wire(), at);
                p.round_trip(at);
            },
            Self::BackgroundFill(p) => {
                p.tag_known();
                Self::agrees_with_background_fill(p.wire(), at);
                p.round_trip(at);
            },
            Self::BackgroundType(p) => {
                p.tag_known();
                Self::agrees_with_background_type(p.wire(), at);
                p.round_trip(at);
            },
            Self::Background(p) => {
                p.tag_known();
                Self::agrees_with_background(p.wire(), at);
                p.round_trip(at);
            },
            Self::Backgrounds(p) => {
                p.tag_known();
                Self::agrees_with_backgrounds(p.wire(), at);
                p.round_trip(at);
            },
            Self::InputBackground(p) => {
                p.tag_known();
                Self::agrees_with_input_background(p.wire(), at);
                p.round_trip(at);
            },
            Self::Hashtags(p) => {
                p.tag_known();
                Self::agrees_with_hashtags(p.wire(), at);
                p.round_trip(at);
            },
            Self::CanTransferOwnershipResult(p) => {
                p.tag_known();
                Self::agrees_with_can_transfer_ownership_result(p.wire(), at);
                p.round_trip(at);
            },
            Self::CheckChatUsernameResult(p) => {
                p.tag_known();
                Self::agrees_with_check_chat_username_result(p.wire(), at);
                p.round_trip(at);
            },
            Self::PushMessageContent(p) => {
                p.tag_known();
                Self::agrees_with_push_message_content(p.wire(), at);
                p.round_trip(at);
            },
            Self::NotificationType(p) => {
                p.tag_known();
                Self::agrees_with_notification_type(p.wire(), at);
                p.round_trip(at);
            },
            Self::NotificationGroupType(p) => {
                p.tag_known();
                Self::agrees_with_notification_group_type(p.wire(), at);
                p.round_trip(at);
            },
            Self::Notification(p) => {
                p.tag_known();
                Self::agrees_with_notification(p.wire(), at);
                p.round_trip(at);
            },
            Self::NotificationGroup(p) => {
                p.tag_known();
                Self::agrees_with_notification_group(p.wire(), at);
                p.round_trip(at);
            },
            Self::OptionValue(p) => {
                p.tag_known();
                Self::agrees_with_option_value(p.wire(), at);
                p.round_trip(at);
            },
            Self::JsonObjectMember(p) => {
                p.tag_known();
                Self::agrees_with_json_object_member(p.wire(), at);
                p.round_trip(at);
            },
            Self::JsonValue(p) => {
                p.tag_known();
                Self::agrees_with_json_value(p.wire(), at);
                p.round_trip(at);
            },
            Self::UserPrivacySettingRule(p) => {
                p.tag_known();
                Self::agrees_with_user_privacy_setting_rule(p.wire(), at);
                p.round_trip(at);
            },
            Self::UserPrivacySettingRules(p) => {
                p.tag_known();
                Self::agrees_with_user_privacy_setting_rules(p.wire(), at);
                p.round_trip(at);
            },
            Self::UserPrivacySetting(p) => {
                p.tag_known();
                Self::agrees_with_user_privacy_setting(p.wire(), at);
                p.round_trip(at);
            },
            Self::AccountTtl(p) => {
                p.tag_known();
                Self::agrees_with_account_ttl(p.wire(), at);
                p.round_trip(at);
            },
            Self::Session(p) => {
                p.tag_known();
                Self::agrees_with_session(p.wire(), at);
                p.round_trip(at);
            },
            Self::Sessions(p) => {
                p.tag_known();
                Self::agrees_with_sessions(p.wire(), at);
                p.round_trip(at);
            },
            Self::ConnectedWebsite(p) => {
                p.tag_known();
                Self::agrees_with_connected_website(p.wire(), at);
                p.round_trip(at);
            },
            Self::ConnectedWebsites(p) => {
                p.tag_known();
                Self::agrees_with_connected_websites(p.wire(), at);
                p.round_trip(at);
            },
            Self::ChatReportReason(p) => {
                p.tag_known();
                Self::agrees_with_chat_report_reason(p.wire(), at);
                p.round_trip(at);
            },
            _ => {},
        }
    }

    proof fn tag_known_5(x: Response)
        ensures
            Self::rank(x) == 5 ==> tag_of(x.wire()) is Some && Self::route(
                tag_of(x.wire())->Some_0,
            ) != 0,
    {
        reveal(<Response as Wire>::wire);
        match x {
            Self::CallbackQueryAnswer(p) => {
                p.tag_known();
                Self::routes_to_callback_query_answer(tag_of(p.wire())->Some_0);
            },
            Self::CustomRequestResult(p) => {
                p.tag_known();
                Self::routes_to_custom_request_result(tag_of(p.wire())->Some_0);
            },
            Self::GameHighScore(p) => {
                p.tag_known();
                Self::routes_to_game_high_score(tag_of(p.wire())->Some_0);
            },
            Self::GameHighScores(p) => {
                p.tag_known();
                Self::routes_to_game_high_scores(tag_of(p.wire())->Some_0);
            },
            Self::ChatEventAction(p) => {
                p.tag_known();
                Self::routes_to_chat_event_action(tag_of(p.wire())->Some_0);
            },
            Self::ChatEvent(p) => {
                p.tag_known();
                Self::routes_to_chat_event(tag_of(p.wire())->Some_0);
            },
            Self::ChatEvents(p) => {
                p.tag_known();
                Self::routes_to_chat_events(tag_of(p.wire())->Some_0);
            },
            Self::ChatEventLogFilters(p) => {
                p.tag_known();
                Self::routes_to_chat_event_log_filters(tag_of(p.wire())->Some_0);
            },
            Self::LanguagePackStringValue(p) => {
                p.tag_known();
                Self::routes_to_language_pack_string_value(tag_of(p.wire())->Some_0);
            },
            Self::LanguagePackString(p) => {
                p.tag_known();
                Self::routes_to_language_pack_string(tag_of(p.wire())->Some_0);
            },
            Self::LanguagePackStrings(p) => {
                p.tag_known();
                Self::routes_to_language_pack_strings(tag_of(p.wire())->Some_0);
            },
            Self::LanguagePackInfo(p) => {
                p.tag_known();
                Self::routes_to_language_pack_info(tag_of(p.wire())->Some_0);
            },
            Self::LocalizationTargetInfo(p) => {
                p.tag_known();
                Self::routes_to_localization_target_info(tag_of(p.wire())->Some_0);
            },
            Self::DeviceToken(p) => {
                p.tag_known();
                Self::routes_to_device_token(tag_of(p.wire())->Some_0);
            },
            Self::PushReceiverId(p) => {
                p.tag_known();
                Self::routes_to_push_receiver_id(tag_of(p.wire())->Some_0);
            },
            Self::BackgroundFill(p) => {
                p.tag_known();
                Self::routes_to_background_fill(tag_of(p.wire())->Some_0);
            },
            Self::BackgroundType(p) => {
                p.tag_known();
                Self::routes_to_background_type(tag_of(p.wire())->Some_0);
            },
            Self::Background(p) => {
                p.tag_known();
                Self::routes_to_background(tag_of(p.wire())->Some_0);
            },
            Self::Backgrounds(p) => {
                p.tag_known();
                Self::routes_to_backgrounds(tag_of(p.wire())->Some_0);
            },
            Self::InputBackground(p) => {
                p.tag_known();
                Self::routes_to_input_background(tag_of(p.wire())->Some_0);
            },
            Self::Hashtags(p) => {
                p.tag_known();
                Self::routes_to_hashtags(tag_of(p.wire())->Some_0);
            },
            Self::CanTransferOwnershipResult(p) => {
                p.tag_known();
                Self::routes_to_can_transfer_ownership_result(tag_of(p.wire())->Some_0);
            },
            Self::CheckChatUsernameResult(p) => {
                p.tag_known();
                Self::routes_to_check_chat_username_result(tag_of(p.wire())->Some_0);
            },
            Self::PushMessageContent(p) => {
                p.tag_known();
                Self::routes_to_push_message_content(tag_of(p.wire())->Some_0);
            },
            Self::NotificationType(p) => {
                p.tag_known();
                Self::routes_to_notification_type(tag_of(p.wire())->Some_0);
            },
            Self::NotificationGroupType(p) => {
                p.tag_known();
                Self::routes_to_notification_group_type(tag_of(p.wire())->Some_0);
            },
            Self::Notification(p) => {
                p.tag_known();
                Self::routes_to_notification(tag_of(p.wire())->Some_0);
            },
            Self::NotificationGroup(p) => {
                p.tag_known();
                Self::routes_to_notification_group(tag_of(p.wire())->Some_0);
            },
            Self::OptionValue(p) => {
                p.tag_known();
                Self::routes_to_option_value(tag_of(p.wire())->Some_0);
            },
            Self::JsonObjectMember(p) => {
                p.tag_known();
                Self::routes_to_json_object_member(tag_of(p.wire())->Some_0);
            },
            Self::JsonValue(p) => {
                p.tag_known();
                Self::routes_to_json_value(tag_of(p.wire())->Some_0);
            },
            Self::UserPrivacySettingRule(p) => {
                p.tag_known();
                Self::routes_to_user_privacy_setting_rule(tag_of(p.wire())->Some_0);
            },
            Self::UserPrivacySettingRules(p) => {
                p.tag_known();
                Self::routes_to_user_privacy_setting_rules(tag_of(p.wire())->Some_0);
            },
            Self::UserPrivacySetting(p) => {
                p.tag_known();
                Self::routes_to_user_privacy_setting(tag_of(p.wire())->Some_0);
            },
            Self::AccountTtl(p) => {
                p.tag_known();
                Self::routes_to_account_ttl(tag_of(p.wire())->Some_0);
            },
            Self::Session(p) => {
                p.tag_known();
                Self::routes_to_session(tag_of(p.wire())->Some_0);
            },
            Self::Sessions(p) => {
                p.tag_known();
                Self::routes_to_sessions(tag_of(p.wire())->Some_0);
            },
            Self::ConnectedWebsite(p) => {
                p.tag_known();
                Self::routes_to_connected_website(tag_of(p.wire())->Some_0);
            },
            Self::ConnectedWebsites(p) => {
                p.tag_known();
                Self::routes_to_connected_websites(tag_of(p.wire())->Some_0);
            },
            Self::ChatReportReason(p) => {
                p.tag_known();
                Self::routes_to_chat_report_reason(tag_of(p.wire())->Some_0);
            },
            _ => {},
        }
    }

    proof fn round_trip_6(x: Response, at: Seq<char>)
        ensures
            Self::rank(x) == 6 ==> Self::parse(x.wire(), at) == Ok::<Doc, Fault>(x.wire()),
    {
        reveal(<Response as Wire>::wire);
        match x {
            Self::PublicMessageLink(p) => {
                p.tag_known();
                Self::agrees_with_public_message_link(p.wire(), at);
                p.round_trip(at);
            },
            Self::MessageLinkInfo(p) => {
                p.tag_known();
                Self::agrees_with_message_link_info(p.wire(), at);
                p.round_trip(at);
            },
            Self::FilePart(p) => {
                p.tag_known();
                Self::agrees_with_file_part(p.wire(), at);
                p.round_trip(at);
            },
            Self::FileType(p) => {
                p.tag_known();
                Self::agrees_with_file_type(p.wire(), at);
                p.round_trip(at);
            },
            Self::StorageStatisticsByFileType(p) => {
                p.tag_known();
                Self::agrees_with_storage_statistics_by_file_type(p.wire(), at);
                p.round_trip(at);
            },
            Self::StorageStatisticsByChat(p) => {
                p.tag_known();
                Self::agrees_with_storage_statistics_by_chat(p.wire(), at);
                p.round_trip(at);
            },
            Self::StorageStatistics(p) => {
                p.tag_known();
                Self::agrees_with_storage_statistics(p.wire(), at);
                p.round_trip(at);
            },
            Self::StorageStatisticsFast(p) => {
                p.tag_known();
                Self::agrees_with_storage_statistics_fast(p.wire(), at);
                p.round_trip(at);
            },
            Self::DatabaseStatistics(p) => {
                p.tag_known();
                Self::agrees_with_database_statistics(p.wire(), at);
                p.round_trip(at);
            },
            Self::NetworkType(p) => {
                p.tag_known();
                Self::agrees_with_network_type(p.wire(), at);
                p.round_trip(at);
            },
            Self::NetworkStatisticsEntry(p) => {
                p.tag_known();
                Self::agrees_with_network_statistics_entry(p.wire(), at);
                p.round_trip(at);
            },
            Self::NetworkStatistics(p) => {
                p.tag_known();
                Self::agrees_with_network_statistics(p.wire(), at);
                p.round_trip(at);
            },
            Self::AutoDownloadSettings(p) => {
                p.tag_known();
                Self::agrees_with_auto_download_settings(p.wire(), at);
                p.round_trip(at);
            },
            Self::AutoDownloadSettingsPresets(p) => {
                p.tag_known();
                Self::agrees_with_auto_download_settings_presets(p.wire(), at);
                p.round_trip(at);
            },
            Self::ConnectionState(p) => {
                p.tag_known();
                Self::agrees_with_connection_state(p.wire(), at);
                p.round_trip(at);
            },
            Self::TopChatCategory(p) => {
                p.tag_known();
                Self::agrees_with_top_chat_category(p.wire(), at);
                p.round_trip(at);
            },
            Self::TMeUrlType(p) => {
                p.tag_known();
                Self::agrees_with_t_me_url_type(p.wire(), at);
                p.round_trip(at);
            },
            Self::TMeUrl(p) => {
                p.tag_known();
                Self::agrees_with_t_me_url(p.wire(), at);
                p.round_trip(at);
            },
            Self::TMeUrls(p) => {
                p.tag_known();
                Self::agrees_with_t_me_urls(p.wire(), at);
                p.round_trip(at);
            },
            Self::Count(p) => {
                p.tag_known();
                Self::agrees_with_count(p.wire(), at);
                p.round_trip(at);
            },
            Self::Text(p) => {
                p.tag_known();
                Self::agrees_with_text(p.wire(), at);
                p.round_trip(at);
            },
            Self::Seconds(p) => {
                p.tag_known();
                Self::agrees_with_seconds(p.wire(), at);
                p.round_trip(at);
            },
            Self::DeepLinkInfo(p) => {
                p.tag_known();
                Self::agrees_with_deep_link_info(p.wire(), at);
                p.round_trip(at);
            },
            Self::TextParseMode(p) => {
                p.tag_known();
                Self::agrees_with_text_parse_mode(p.wire(), at);
                p.round_trip(at);
            },
            Self::ProxyType(p) => {
                p.tag_known();
                Self::agrees_with_proxy_type(p.wire(), at);
                p.round_trip(at);
            },
            Self::Proxy(p) => {
                p.tag_known();
                Self::agrees_with_proxy(p.wire(), at);
                p.round_trip(at);
            },
            Self::Proxies(p) => {
                p.tag_known();
                Self::agrees_with_proxies(p.wire(), at);
                p.round_trip(at);
            },
            Self::InputSticker(p) => {
                p.tag_known();
                Self::agrees_with_input_sticker(p.wire(), at);
                p.round_trip(at);
            },
            Self::UpdateAuthorizationState(p) => {
                p.tag_known();
                Self::agrees_with_update_authorization_state(p.wire(), at);
                p.round_trip(at);
            },
            Self::UpdateNewMessage(p) => {
                p.tag_known();
                Self::agrees_with_update_new_message(p.wire(), at);
                p.round_trip(at);
            },
            Self::UpdateMessageSendAcknowledged(p) => {
                p.tag_known();
                Self::agrees_with_update_message_send_acknowledged(p.wire(), at);
                p.round_trip(at);
            },
            Self::UpdateMessageSendSucceeded(p) => {
                p.tag_known();
                Self::agrees_with_update_message_send_succeeded(p.wire(), at);
                p.round_trip(at);
            },
            Self::UpdateMessageSendFailed(p) => {
                p.tag_known();
                Self::agrees_with_update_message_send_failed(p.wire(), at);
                p.round_trip(at);
            },
            Self::UpdateMessageContent(p) => {
                p.tag_known();
                Self::agrees_with_update_message_content(p.wire(), at);
                p.round_trip(at);
            },
            Self::UpdateMessageEdited(p) => {
                p.tag_known();
                Self::agrees_with_update_message_edited(p.wire(), at);
                p.round_trip(at);
            },
            Self::UpdateMessageViews(p) => {
                p.tag_known();
                Self::agrees_with_update_message_views(p.wire(), at);
                p.round_trip(at);
            },
            Self::UpdateMessageContentOpened(p) => {
                p.tag_known();
                Self::agrees_with_update_message_content_opened(p.wire(), at);
                p.round_trip(at);
            },
            Self::UpdateMessageMentionRead(p) => {
                p.tag_known();
                Self::agrees_with_update_message_mention_read(p.wire(), at);
                p.round_trip(at);
            },
            Self::UpdateMessageLiveLocationViewed(p) => {
                p.tag_known();
                Self::agrees_with_update_message_live_location_viewed(p.wire(), at);
                p.round_trip(at);
            },
            Self::UpdateNewChat(p) => {
                p.tag_known();
                Self::agrees_with_update_new_chat(p.wire(), at);
                p.round_trip(at);
            },
            _ => {},
        }
    }

    proof fn tag_known_6(x: Response)
        ensures
            Self::rank(x) == 6 ==> tag_of(x.wire()) is Some && Self::route(
                tag_of(x.wire())->Some_0,
            ) != 0,
    {
        reveal(<Response as Wire>::wire);
        match x {
            Self::PublicMessageLink(p) => {
                p.tag_known();
                Self::routes_to_public_message_link(tag_of(p.wire())->Some_0);
            },
            Self::MessageLinkInfo(p) => {
                p.tag_known();
                Self::routes_to_message_link_info(tag_of(p.wire())->Some_0);
            },
            Self::FilePart(p) => {
                p.tag_known();
                Self::routes_to_file_part(tag_of(p.wire())->Some_0);
            },
            Self::FileType(p) => {
                p.tag_known();
                Self::routes_to_file_type(tag_of(p.wire())->Some_0);
            },
            Self::StorageStatisticsByFileType(p) => {
                p.tag_known();
                Self::routes_to_storage_statistics_by_file_type(tag_of(p.wire())->Some_0);
            },
            Self::StorageStatisticsByChat(p) => {
                p.tag_known();
                Self::routes_to_storage_statistics_by_chat(tag_of(p.wire())->Some_0);
            },
            Self::StorageStatistics(p) => {
                p.tag_known();
                Self::routes_to_storage_statistics(tag_of(p.wire())->Some_0);
            },
            Self::StorageStatisticsFast(p) => {
                p.tag_known();
                Self::routes_to_storage_statistics_fast(tag_of(p.wire())->Some_0);
            },
            Self::DatabaseStatistics(p) => {
                p.tag_known();
                Self::routes_to_database_statistics(tag_of(p.wire())->Some_0);
            },
            Self::NetworkType(p) => {
                p.tag_known();
                Self::routes_to_network_type(tag_of(p.wire())->Some_0);
            },
            Self::NetworkStatisticsEntry(p) => {
                p.tag_known();
                Self::routes_to_network_statistics_entry(tag_of(p.wire())->Some_0);
            },
            Self::NetworkStatistics(p) => {
                p.tag_known();
                Self::routes_to_network_statistics(tag_of(p.wire())->Some_0);
            },
            Self::AutoDownloadSettings(p) => {
                p.tag_known();
                Self::routes_to_auto_download_settings(tag_of(p.wire())->Some_0);
            },
            Self::AutoDownloadSettingsPresets(p) => {
                p.tag_known();
                Self::routes_to_auto_download_settings_presets(tag_of(p.wire())->Some_0);
            },
            Self::ConnectionState(p) => {
                p.tag_known();
                Self::routes_to_connection_state(tag_of(p.wire())->Some_0);
            },
            Self::TopChatCategory(p) => {
                p.tag_known();
                Self::routes_to_top_chat_category(tag_of(p.wire())->Some_0);
            },
            Self::TMeUrlType(p) => {
                p.tag_known();
                Self::routes_to_t_me_url_type(tag_of(p.wire())->Some_0);
            },
            Self::TMeUrl(p) => {
                p.tag_known();
                Self::routes_to_t_me_url(tag_of(p.wire())->Some_0);
            },
            Self::TMeUrls(p) => {
                p.tag_known();
                Self::routes_to_t_me_urls(tag_of(p.wire())->Some_0);
            },
            Self::Count(p) => {
                p.tag_known();
                Self::routes_to_count(tag_of(p.wire())->Some_0);
            },
            Self::Text(p) => {
                p.tag_known();
                Self::routes_to_text(tag_of(p.wire())->Some_0);
            },
            Self::Seconds(p) => {
                p.tag_known();
                Self::routes_to_seconds(tag_of(p.wire())->Some_0);
            },
            Self::DeepLinkInfo(p) => {
                p.tag_known();
                Self::routes_to_deep_link_info(tag_of(p.wire())->Some_0);
            },
            Self::TextParseMode(p) => {
                p.tag_known();
                Self::routes_to_text_parse_mode(tag_of(p.wire())->Some_0);
            },
            Self::ProxyType(p) => {
                p.tag_known();
                Self::routes_to_proxy_type(tag_of(p.wire())->Some_0);
            },
            Self::Proxy(p) => {
                p.tag_known();
                Self::routes_to_proxy(tag_of(p.wire())->Some_0);
            },
            Self::Proxies(p) => {
                p.tag_known();
                Self::routes_to_proxies(tag_of(p.wire())->Some_0);
            },
            Self::InputSticker(p) => {
                p.tag_known();
                Self::routes_to_input_sticker(tag_of(p.wire())->Some_0);
            },
            Self::UpdateAuthorizationState(p) => {
                p.tag_known();
                Self::routes_to_update_authorization_state(tag_of(p.wire())->Some_0);
            },
            Self::UpdateNewMessage(p) => {
                p.tag_known();
                Self::routes_to_update_new_message(tag_of(p.wire())->Some_0);
            },
            Self::UpdateMessageSendAcknowledged(p) => {
                p.tag_known();
                Self::routes_to_update_message_send_acknowledged(tag_of(p.wire())->Some_0);
            },
            Self::UpdateMessageSendSucceeded(p) => {
                p.tag_known();
                Self::routes_to_update_message_send_succeeded(tag_of(p.wire())->Some_0);
            },
            Self::UpdateMessageSendFailed(p) => {
                p.tag_known();
                Self::routes_to_update_message_send_failed(tag_of(p.wire())->Some_0);
            },
            Self::UpdateMessageContent(p) => {
                p.tag_known();
                Self::routes_to_update_message_content(tag_of(p.wire())->Some_0);
            },
            Self::UpdateMessageEdited(p) => {
                p.tag_known();
                Self::routes_to_update_message_edited(tag_of(p.wire())->Some_0);
            },
            Self::UpdateMessageViews(p) => {
                p.tag_known();
                Self::routes_to_update_message_views(tag_of(p.wire())->Some_0);
            },
            Self::UpdateMessageContentOpened(p) => {
                p.tag_known();
                Self::routes_to_update_message_content_opened(tag_of(p.wire())->Some_0);
            },
            Self::UpdateMessageMentionRead(p) => {
                p.tag_known();
                Self::routes_to_update_message_mention_read(tag_of(p.wire())->Some_0);
            },
            Self::UpdateMessageLiveLocationViewed(p) => {
                p.tag_known();
                Self::routes_to_update_message_live_location_viewed(tag_of(p.wire())->Some_0);
            },
            Self::UpdateNewChat(p) => {
                p.tag_known();
                Self::routes_to_update_new_chat(tag_of(p.wire())->Some_0);
            },
            _ => {},
        }
    }

    proof fn round_trip_7(x: Response, at: Seq<char>)
        ensures
            Self::rank(x) == 7 ==> Self::parse(x.wire(), at) == Ok::<Doc, Fault>(x.wire()),
    {
        reveal(<Response as Wire>::wire);
        match x {
            Self::UpdateChatChatList(p) => {
                p.tag_known();
                Self::agrees_with_update_chat_chat_list(p.wire(), at);
                p.round_trip(at);
            },
            Self::UpdateChatTitle(p) => {
                p.tag_known();
                Self::agrees_with_update_chat_title(p.wire(), at);
                p.round_trip(at);
            },
            Self::UpdateChatPhoto(p) => {
                p.tag_known();
                Self::agrees_with_update_chat_photo(p.wire(), at);
                p.round_trip(at);
            },
            Self::UpdateChatPermissions(p) => {
                p.tag_known();
                Self::agrees_with_update_chat_permissions(p.wire(), at);
                p.round_trip(at);
            },
            Self::UpdateChatLastMessage(p) => {
                p.tag_known();
                Self::agrees_with_update_chat_last_message(p.wire(), at);
                p.round_trip(at);
            },
            Self::UpdateChatOrder(p) => {
                p.tag_known();
                Self::agrees_with_update_chat_order(p.wire(), at);
                p.round_trip(at);
            },
            Self::UpdateChatIsPinned(p) => {
                p.tag_known();
                Self::agrees_with_update_chat_is_pinned(p.wire(), at);
                p.round_trip(at);
            },
            Self::UpdateChatIsMarkedAsUnread(p) => {
                p.tag_known();
                Self::agrees_with_update_chat_is_marked_as_unread(p.wire(), at);
                p.round_trip(at);
            },
            Self::UpdateChatIsSponsored(p) => {
                p.tag_known();
                Self::agrees_with_update_chat_is_sponsored(p.wire(), at);
                p.round_trip(at);
            },
            Self::UpdateChatHasScheduledMessages(p) => {
                p.tag_known();
                Self::agrees_with_update_chat_has_scheduled_messages(p.wire(), at);
                p.round_trip(at);
            },
            Self::UpdateChatDefaultDisableNotification(p) => {
                p.tag_known();
                Self::agrees_with_update_chat_default_disable_notification(p.wire(), at);
                p.round_trip(at);
            },
            Self::UpdateChatReadInbox(p) => {
                p.tag_known();
                Self::agrees_with_update_chat_read_inbox(p.wire(), at);
                p.round_trip(at);
            },
            Self::UpdateChatReadOutbox(p) => {
                p.tag_known();
                Self::agrees_with_update_chat_read_outbox(p.wire(), at);
                p.round_trip(at);
            },
            Self::UpdateChatUnreadMentionCount(p) => {
                p.tag_known();
                Self::agrees_with_update_chat_unread_mention_count(p.wire(), at);
                p.round_trip(at);
            },
            Self::UpdateChatNotificationSettings(p) => {
                p.tag_known();
                Self::agrees_with_update_chat_notification_settings(p.wire(), at);
                p.round_trip(at);
            },
            Self::UpdateScopeNotificationSettings(p) => {
                p.tag_known();
                Self::agrees_with_update_scope_notification_settings(p.wire(), at);
                p.round_trip(at);
            },
            Self::UpdateChatActionBar(p) => {
                p.tag_known();
                Self::agrees_with_update_chat_action_bar(p.wire(), at);
                p.round_trip(at);
            },
            Self::UpdateChatPinnedMessage(p) => {
                p.tag_known();
                Self::agrees_with_update_chat_pinned_message(p.wire(), at);
                p.round_trip(at);
            },
            Self::UpdateChatReplyMarkup(p) => {
                p.tag_known();
                Self::agrees_with_update_chat_reply_markup(p.wire(), at);
                p.round_trip(at);
            },
            Self::UpdateChatDraftMessage(p) => {
                p.tag_known();
                Self::agrees_with_update_chat_draft_message(p.wire(), at);
                p.round_trip(at);
            },
            Self::UpdateChatOnlineMemberCount(p) => {
                p.tag_known();
                Self::agrees_with_update_chat_online_member_count(p.wire(), at);
                p.round_trip(at);
            },
            Self::UpdateNotification(p) => {
                p.tag_known();
                Self::agrees_with_update_notification(p.wire(), at);
                p.round_trip(at);
            },
            Self::UpdateNotificationGroup(p) => {
                p.tag_known();
                Self::agrees_with_update_notification_group(p.wire(), at);
                p.round_trip(at);
            },
            Self::UpdateActiveNotifications(p) => {
                p.tag_known();
                Self::agrees_with_update_active_notifications(p.wire(), at);
                p.round_trip(at);
            },
            Self::UpdateHavePendingNotifications(p) => {
                p.tag_known();
                Self::agrees_with_update_have_pending_notifications(p.wire(), at);
                p.round_trip(at);
            },
            Self::UpdateDeleteMessages(p) => {
                p.tag_known();
                Self::agrees_with_update_delete_messages(p.wire(), at);
                p.round_trip(at);
            },
            Self::UpdateUserChatAction(p) => {
                p.tag_known();
                Self::agrees_with_update_user_chat_action(p.wire(), at);
                p.round_trip(at);
            },
            Self::UpdateUserStatus(p) => {
                p.tag_known();
                Self::agrees_with_update_user_status(p.wire(), at);
                p.round_trip(at);
            },
            Self::UpdateUser(p) => {
                p.tag_known();
                Self::agrees_with_update_user(p.wire(), at);
                p.round_trip(at);
            },
            Self::UpdateBasicGroup(p) => {
                p.tag_known();
                Self::agrees_with_update_basic_group(p.wire(), at);
                p.round_trip(at);
            },
            Self::UpdateSupergroup(p) => {
                p.tag_known();
                Self::agrees_with_update_supergroup(p.wire(), at);
                p.round_trip(at);
            },
            Self::UpdateSecretChat(p) => {
                p.tag_known();
                Self::agrees_with_update_secret_chat(p.wire(), at);
                p.round_trip(at);
            },
            Self::UpdateUserFullInfo(p) => {
                p.tag_known();
                Self::agrees_with_update_user_full_info(p.wire(), at);
                p.round_trip(at);
            },
            Self::UpdateBasicGroupFullInfo(p) => {
                p.tag_known();
                Self::agrees_with_update_basic_group_full_info(p.wire(), at);
                p.round_trip(at);
            },
            Self::UpdateSupergroupFullInfo(p) => {
                p.tag_known();
                Self::agrees_with_update_supergroup_full_info(p.wire(), at);
                p.round_trip(at);
            },
            Self::UpdateServiceNotification(p) => {
                p.tag_known();
                Self::agrees_with_update_service_notification(p.wire(), at);
                p.round_trip(at);
            },
            Self::UpdateFile(p) => {
                p.tag_known();
                Self::agrees_with_update_file(p.wire(), at);
                p.round_trip(at);
            },
            Self::UpdateFileGenerationStart(p) => {
                p.tag_known();
                Self::agrees_with_update_file_generation_start(p.wire(), at);
                p.round_trip(at);
            },
            Self::UpdateFileGenerationStop(p) => {
                p.tag_known();
                Self::agrees_with_update_file_generation_stop(p.wire(), at);
                p.round_trip(at);
            },
            Self::UpdateCall(p) => {
                p.tag_known();
                Self::agrees_with_update_call(p.wire(), at);
                p.round_trip(at);
            },
            _ => {},
        }
    }

    proof fn tag_known_7(x: Response)
        ensures
            Self::rank(x) == 7 ==> tag_of(x.wire()) is Some && Self::route(
                tag_of(x.wire())->Some_0,
            ) != 0,
    {
        reveal(<Response as Wire>::wire);
        match x {
            Self::UpdateChatChatList(p) => {
                p.tag_known();
                Self::routes_to_update_chat_chat_list(tag_of(p.wire())->Some_0);
            },
            Self::UpdateChatTitle(p) => {
                p.tag_known();
                Self::routes_to_update_chat_title(tag_of(p.wire())->Some_0);
            },
            Self::UpdateChatPhoto(p) => {
                p.tag_known();
                Self::routes_to_update_chat_photo(tag_of(p.wire())->Some_0);
            },
            Self::UpdateChatPermissions(p) => {
                p.tag_known();
                Self::routes_to_update_chat_permissions(tag_of(p.wire())->Some_0);
            },
            Self::UpdateChatLastMessage(p) => {
                p.tag_known();
                Self::routes_to_update_chat_last_message(tag_of(p.wire())->Some_0);
            },
            Self::UpdateChatOrder(p) => {
                p.tag_known();
                Self::routes_to_update_chat_order(tag_of(p.wire())->Some_0);
            },
            Self::UpdateChatIsPinned(p) => {
                p.tag_known();
                Self::routes_to_update_chat_is_pinned(tag_of(p.wire())->Some_0);
            },
            Self::UpdateChatIsMarkedAsUnread(p) => {
                p.tag_known();
                Self::routes_to_update_chat_is_marked_as_unread(tag_of(p.wire())->Some_0);
            },
            Self::UpdateChatIsSponsored(p) => {
                p.tag_known();
                Self::routes_to_update_chat_is_sponsored(tag_of(p.wire())->Some_0);
            },
            Self::UpdateChatHasScheduledMessages(p) => {
                p.tag_known();
                Self::routes_to_update_chat_has_scheduled_messages(tag_of(p.wire())->Some_0);
            },
            Self::UpdateChatDefaultDisableNotification(p) => {
                p.tag_known();
                Self::routes_to_update_chat_default_disable_notification(tag_of(p.wire())->Some_0);
            },
            Self::UpdateChatReadInbox(p) => {
                p.tag_known();
                Self::routes_to_update_chat_read_inbox(tag_of(p.wire())->Some_0);
            },
            Self::UpdateChatReadOutbox(p) => {
                p.tag_known();
                Self::routes_to_update_chat_read_outbox(tag_of(p.wire())->Some_0);
            },
            Self::UpdateChatUnreadMentionCount(p) => {
                p.tag_known();
                Self::routes_to_update_chat_unread_mention_count(tag_of(p.wire())->Some_0);
            },
            Self::UpdateChatNotificationSettings(p) => {
                p.tag_known();
                Self::routes_to_update_chat_notification_settings(tag_of(p.wire())->Some_0);
            },
            Self::UpdateScopeNotificationSettings(p) => {
                p.tag_known();
                Self::routes_to_update_scope_notification_settings(tag_of(p.wire())->Some_0);
            },
            Self::UpdateChatActionBar(p) => {
                p.tag_known();
                Self::routes_to_update_chat_action_bar(tag_of(p.wire())->Some_0);
            },
            Self::UpdateChatPinnedMessage(p) => {
                p.tag_known();
                Self::routes_to_update_chat_pinned_message(tag_of(p.wire())->Some_0);
            },
            Self::UpdateChatReplyMarkup(p) => {
                p.tag_known();
                Self::routes_to_update_chat_reply_markup(tag_of(p.wire())->Some_0);
            },
            Self::UpdateChatDraftMessage(p) => {
                p.tag_known();
                Self::routes_to_update_chat_draft_message(tag_of(p.wire())->Some_0);
            },
            Self::UpdateChatOnlineMemberCount(p) => {
                p.tag_known();
                Self::routes_to_update_chat_online_member_count(tag_of(p.wire())->Some_0);
            },
            Self::UpdateNotification(p) => {
                p.tag_known();
                Self::routes_to_update_notification(tag_of(p.wire())->Some_0);
            },
            Self::UpdateNotificationGroup(p) => {
                p.tag_known();
                Self::routes_to_update_notification_group(tag_of(p.wire())->Some_0);
            },
            Self::UpdateActiveNotifications(p) => {
                p.tag_known();
                Self::routes_to_update_active_notifications(tag_of(p.wire())->Some_0);
            },
            Self::UpdateHavePendingNotifications(p) => {
                p.tag_known();
                Self::routes_to_update_have_pending_notifications(tag_of(p.wire())->Some_0);
            },
            Self::UpdateDeleteMessages(p) => {
                p.tag_known();
                Self::routes_to_update_delete_messages(tag_of(p.wire())->Some_0);
            },
            Self::UpdateUserChatAction(p) => {
                p.tag_known();
                Self::routes_to_update_user_chat_action(tag_of(p.wire())->Some_0);
            },
            Self::UpdateUserStatus(p) => {
                p.tag_known();
                Self::routes_to_update_user_status(tag_of(p.wire())->Some_0);
            },
            Self::UpdateUser(p) => {
                p.tag_known();
                Self::routes_to_update_user(tag_of(p.wire())->Some_0);
            },
            Self::UpdateBasicGroup(p) => {
                p.tag_known();
                Self::routes_to_update_basic_group(tag_of(p.wire())->Some_0);
            },
            Self::UpdateSupergroup(p) => {
                p.tag_known();
                Self::routes_to_update_supergroup(tag_of(p.wire())->Some_0);
            },
            Self::UpdateSecretChat(p) => {
                p.tag_known();
                Self::routes_to_update_secret_chat(tag_of(p.wire())->Some_0);
            },
            Self::UpdateUserFullInfo(p) => {
                p.tag_known();
                Self::routes_to_update_user_full_info(tag_of(p.wire())->Some_0);
            },
            Self::UpdateBasicGroupFullInfo(p) => {
                p.tag_known();
                Self::routes_to_update_basic_group_full_info(tag_of(p.wire())->Some_0);
            },
            Self::UpdateSupergroupFullInfo(p) => {
                p.tag_known();
                Self::routes_to_update_supergroup_full_info(tag_of(p.wire())->Some_0);
            },
            Self::UpdateServiceNotification(p) => {
                p.tag_known();
                Self::routes_to_update_service_notification(tag_of(p.wire())->Some_0);
            },
            Self::UpdateFile(p) => {
                p.tag_known();
                Self::routes_to_update_file(tag_of(p.wire())->Some_0);
            },
            Self::UpdateFileGenerationStart(p) => {
                p.tag_known();
                Self::routes_to_update_file_generation_start(tag_of(p.wire())->Some_0);
            },
            Self::UpdateFileGenerationStop(p) => {
                p.tag_known();
                Self::routes_to_update_file_generation_stop(tag_of(p.wire())->Some_0);
            },
            Self::UpdateCall(p) => {
                p.tag_known();
                Self::routes_to_update_call(tag_of(p.wire())->Some_0);
            },
            _ => {},
        }
    }

    proof fn round_trip_8(x: Response, at: Seq<char>)
        ensures
            Self::rank(x) == 8 ==> Self::parse(x.wire(), at) == Ok::<Doc, Fault>(x.wire()),
    {
        reveal(<Response as Wire>::wire);
        match x {
            Self::UpdateUserPrivacySettingRules(p) => {
                p.tag_known();
                Self::agrees_with_update_user_privacy_setting_rules(p.wire(), at);
                p.round_trip(at);
            },
            Self::UpdateUnreadMessageCount(p) => {
                p.tag_known();
                Self::agrees_with_update_unread_message_count(p.wire(), at);
                p.round_trip(at);
            },
            Self::UpdateUnreadChatCount(p) => {
                p.tag_known();
                Self::agrees_with_update_unread_chat_count(p.wire(), at);
                p.round_trip(at);
            },
            Self::UpdateOption(p) => {
                p.tag_known();
                Self::agrees_with_update_option(p.wire(), at);
                p.round_trip(at);
            },
            Self::UpdateInstalledStickerSets(p) => {
                p.tag_known();
                Self::agrees_with_update_installed_sticker_sets(p.wire(), at);
                p.round_trip(at);
            },
            Self::UpdateTrendingStickerSets(p) => {
                p.tag_known();
                Self::agrees_with_update_trending_sticker_sets(p.wire(), at);
                p.round_trip(at);
            },
            Self::UpdateRecentStickers(p) => {
                p.tag_known();
                Self::agrees_with_update_recent_stickers(p.wire(), at);
                p.round_trip(at);
            },
            Self::UpdateFavoriteStickers(p) => {
                p.tag_known();
                Self::agrees_with_update_favorite_stickers(p.wire(), at);
                p.round_trip(at);
            },
            Self::UpdateSavedAnimations(p) => {
                p.tag_known();
                Self::agrees_with_update_saved_animations(p.wire(), at);
                p.round_trip(at);
            },
            Self::UpdateSelectedBackground(p) => {
                p.tag_known();
                Self::agrees_with_update_selected_background(p.wire(), at);
                p.round_trip(at);
            },
            Self::UpdateLanguagePackStrings(p) => {
                p.tag_known();
                Self::agrees_with_update_language_pack_strings(p.wire(), at);
                p.round_trip(at);
            },
            Self::UpdateConnectionState(p) => {
                p.tag_known();
                Self::agrees_with_update_connection_state(p.wire(), at);
                p.round_trip(at);
            },
            Self::UpdateTermsOfService(p) => {
                p.tag_known();
                Self::agrees_with_update_terms_of_service(p.wire(), at);
                p.round_trip(at);
            },
            Self::UpdateUsersNearby(p) => {
                p.tag_known();
                Self::agrees_with_update_users_nearby(p.wire(), at);
                p.round_trip(at);
            },
            Self::UpdateNewInlineQuery(p) => {
                p.tag_known();
                Self::agrees_with_update_new_inline_query(p.wire(), at);
                p.round_trip(at);
            },
            Self::UpdateNewChosenInlineResult(p) => {
                p.tag_known();
                Self::agrees_with_update_new_chosen_inline_result(p.wire(), at);
                p.round_trip(at);
            },
            Self::UpdateNewCallbackQuery(p) => {
                p.tag_known();
                Self::agrees_with_update_new_callback_query(p.wire(), at);
                p.round_trip(at);
            },
            Self::UpdateNewInlineCallbackQuery(p) => {
                p.tag_known();
                Self::agrees_with_update_new_inline_callback_query(p.wire(), at);
                p.round_trip(at);
            },
            Self::UpdateNewShippingQuery(p) => {
                p.tag_known();
                Self::agrees_with_update_new_shipping_query(p.wire(), at);
                p.round_trip(at);
            },
            Self::UpdateNewPreCheckoutQuery(p) => {
                p.tag_known();
                Self::agrees_with_update_new_pre_checkout_query(p.wire(), at);
                p.round_trip(at);
            },
            Self::UpdateNewCustomEvent(p) => {
                p.tag_known();
                Self::agrees_with_update_new_custom_event(p.wire(), at);
                p.round_trip(at);
            },
            Self::UpdateNewCustomQuery(p) => {
                p.tag_known();
                Self::agrees_with_update_new_custom_query(p.wire(), at);
                p.round_trip(at);
            },
            Self::UpdatePoll(p) => {
                p.tag_known();
                Self::agrees_with_update_poll(p.wire(), at);
                p.round_trip(at);
            },
            Self::UpdatePollAnswer(p) => {
                p.tag_known();
                Self::agrees_with_update_poll_answer(p.wire(), at);
                p.round_trip(at);
            },
            Self::Updates(p) => {
                p.tag_known();
                Self::agrees_with_updates(p.wire(), at);
                p.round_trip(at);
            },
            Self::LogStream(p) => {
                p.tag_known();
                Self::agrees_with_log_stream(p.wire(), at);
                p.round_trip(at);
            },
            Self::LogVerbosityLevel(p) => {
                p.tag_known();
                Self::agrees_with_log_verbosity_level(p.wire(), at);
                p.round_trip(at);
            },
            Self::LogTags(p) => {
                p.tag_known();
                Self::agrees_with_log_tags(p.wire(), at);
                p.round_trip(at);
            },
            Self::TestInt(p) => {
                p.tag_known();
                Self::agrees_with_test_int(p.wire(), at);
                p.round_trip(at);
            },
            Self::TestString(p) => {
                p.tag_known();
                Self::agrees_with_test_string(p.wire(), at);
                p.round_trip(at);
            },
            Self::TestBytes(p) => {
                p.tag_known();
                Self::agrees_with_test_bytes(p.wire(), at);
                p.round_trip(at);
            },
            Self::TestVectorInt(p) => {
                p.tag_known();
                Self::agrees_with_test_vector_int(p.wire(), at);
                p.round_trip(at);
            },
            Self::TestVectorIntObject(p) => {
                p.tag_known();
                Self::agrees_with_test_vector_int_object(p.wire(), at);
                p.round_trip(at);
            },
            Self::TestVectorString(p) => {
                p.tag_known();
                Self::agrees_with_test_vector_string(p.wire(), at);
                p.round_trip(at);
            },
            Self::TestVectorStringObject(p) => {
                p.tag_known();
                Self::agrees_with_test_vector_string_object(p.wire(), at);
                p.round_trip(at);
            },
            _ => {},
        }
    }

    proof fn tag_known_8(x: Response)
        ensures
            Self::rank(x) == 8 ==> tag_of(x.wire()) is Some && Self::route(
                tag_of(x.wire())->Some_0,
            ) != 0,
    {
        reveal(<Response as Wire>::wire);
        match x {
            Self::UpdateUserPrivacySettingRules(p) => {
                p.tag_known();
                Self::routes_to_update_user_privacy_setting_rules(tag_of(p.wire())->Some_0);
            },
            Self::UpdateUnreadMessageCount(p) => {
                p.tag_known();
                Self::routes_to_update_unread_message_count(tag_of(p.wire())->Some_0);
            },
            Self::UpdateUnreadChatCount(p) => {
                p.tag_known();
                Self::routes_to_update_unread_chat_count(tag_of(p.wire())->Some_0);
            },
            Self::UpdateOption(p) => {
                p.tag_known();
                Self::routes_to_update_option(tag_of(p.wire())->Some_0);
            },
            Self::UpdateInstalledStickerSets(p) => {
                p.tag_known();
                Self::routes_to_update_installed_sticker_sets(tag_of(p.wire())->Some_0);
            },
            Self::UpdateTrendingStickerSets(p) => {
                p.tag_known();
                Self::routes_to_update_trending_sticker_sets(tag_of(p.wire())->Some_0);
            },
            Self::UpdateRecentStickers(p) => {
                p.tag_known();
                Self::routes_to_update_recent_stickers(tag_of(p.wire())->Some_0);
            },
            Self::UpdateFavoriteStickers(p) => {
                p.tag_known();
                Self::routes_to_update_favorite_stickers(tag_of(p.wire())->Some_0);
            },
            Self::UpdateSavedAnimations(p) => {
                p.tag_known();
                Self::routes_to_update_saved_animations(tag_of(p.wire())->Some_0);
            },
            Self::UpdateSelectedBackground(p) => {
                p.tag_known();
                Self::routes_to_update_selected_background(tag_of(p.wire())->Some_0);
            },
            Self::UpdateLanguagePackStrings(p) => {
                p.tag_known();
                Self::routes_to_update_language_pack_strings(tag_of(p.wire())->Some_0);
            },
            Self::UpdateConnectionState(p) => {
                p.tag_known();
                Self::routes_to_update_connection_state(tag_of(p.wire())->Some_0);
            },
            Self::UpdateTermsOfService(p) => {
                p.tag_known();
                Self::routes_to_update_terms_of_service(tag_of(p.wire())->Some_0);
            },
            Self::UpdateUsersNearby(p) => {
                p.tag_known();
                Self::routes_to_update_users_nearby(tag_of(p.wire())->Some_0);
            },
            Self::UpdateNewInlineQuery(p) => {
                p.tag_known();
                Self::routes_to_update_new_inline_query(tag_of(p.wire())->Some_0);
            },
            Self::UpdateNewChosenInlineResult(p) => {
                p.tag_known();
                Self::routes_to_update_new_chosen_inline_result(tag_of(p.wire())->Some_0);
            },
            Self::UpdateNewCallbackQuery(p) => {
                p.tag_known();
                Self::routes_to_update_new_callback_query(tag_of(p.wire())->Some_0);
            },
            Self::UpdateNewInlineCallbackQuery(p) => {
                p.tag_known();
                Self::routes_to_update_new_inline_callback_query(tag_of(p.wire())->Some_0);
            },
            Self::UpdateNewShippingQuery(p) => {
                p.tag_known();
                Self::routes_to_update_new_shipping_query(tag_of(p.wire())->Some_0);
            },
            Self::UpdateNewPreCheckoutQuery(p) => {
                p.tag_known();
                Self::routes_to_update_new_pre_checkout_query(tag_of(p.wire())->Some_0);
            },
            Self::UpdateNewCustomEvent(p) => {
                p.tag_known();
                Self::routes_to_update_new_custom_event(tag_of(p.wire())->Some_0);
            },
            Self::UpdateNewCustomQuery(p) => {
                p.tag_known();
                Self::routes_to_update_new_custom_query(tag_of(p.wire())->Some_0);
            },
            Self::UpdatePoll(p) => {
                p.tag_known();
                Self::routes_to_update_poll(tag_of(p.wire())->Some_0);
            },
            Self::UpdatePollAnswer(p) => {
                p.tag_known();
                Self::routes_to_update_poll_answer(tag_of(p.wire())->Some_0);
            },
            Self::Updates(p) => {
                p.tag_known();
                Self::routes_to_updates(tag_of(p.wire())->Some_0);
            },
            Self::LogStream(p) => {
                p.tag_known();
                Self::routes_to_log_stream(tag_of(p.wire())->Some_0);
            },
            Self::LogVerbosityLevel(p) => {
                p.tag_known();
                Self::routes_to_log_verbosity_level(tag_of(p.wire())->Some_0);
            },
            Self::LogTags(p) => {
                p.tag_known();
                Self::routes_to_log_tags(tag_of(p.wire())->Some_0);
            },
            Self::TestInt(p) => {
                p.tag_known();
                Self::routes_to_test_int(tag_of(p.wire())->Some_0);
            },
            Self::TestString(p) => {
                p.tag_known();
                Self::routes_to_test_string(tag_of(p.wire())->Some_0);
            },
            Self::TestBytes(p) => {
                p.tag_known();
                Self::routes_to_test_bytes(tag_of(p.wire())->Some_0);
            },
            Self::TestVectorInt(p) => {
                p.tag_known();
                Self::routes_to_test_vector_int(tag_of(p.wire())->Some_0);
            },
            Self::TestVectorIntObject(p) => {
                p.tag_known();
                Self::routes_to_test_vector_int_object(tag_of(p.wire())->Some_0);
            },
            Self::TestVectorString(p) => {
                p.tag_known();
                Self::routes_to_test_vector_string(tag_of(p.wire())->Some_0);
            },
            Self::TestVectorStringObject(p) => {
                p.tag_known();
                Self::routes_to_test_vector_string_object(tag_of(p.wire())->Some_0);
            },
            _ => {},
        }
    }

    /// Whether a value is an update: something that the library sent without being
    /// asked, and so the answer to no request.
    pub open spec fn carries_update(&self) -> bool {
        match self {
            Self::UpdateAuthorizationState(_) => true,
            Self::UpdateNewMessage(_) => true,
            Self::UpdateMessageSendAcknowledged(_) => true,
            Self::UpdateMessageSendSucceeded(_) => true,
            Self::UpdateMessageSendFailed(_) => true,
            Self::UpdateMessageContent(_) => true,
            Self::UpdateMessageEdited(_) => true,
            Self::UpdateMessageViews(_) => true,
            Self::UpdateMessageContentOpened(_) => true,
            Self::UpdateMessageMentionRead(_) => true,
            Self::UpdateMessageLiveLocationViewed(_) => true,
            Self::UpdateNewChat(_) => true,
            Self::UpdateChatChatList(_) => true,
            Self::UpdateChatTitle(_) => true,
            Self::UpdateChatPhoto(_) => true,
            Self::UpdateChatPermissions(_) => true,
            Self::UpdateChatLastMessage(_) => true,
            Self::UpdateChatOrder(_) => true,
            Self::UpdateChatIsPinned(_) => true,
            Self::UpdateChatIsMarkedAsUnread(_) => true,
            Self::UpdateChatIsSponsored(_) => true,
            Self::UpdateChatHasScheduledMessages(_) => true,
            Self::UpdateChatDefaultDisableNotification(_) => true,
            Self::UpdateChatReadInbox(_) => true,
            Self::UpdateChatReadOutbox(_) => true,
            Self::UpdateChatUnreadMentionCount(_) => true,
            Self::UpdateChatNotificationSettings(_) => true,
            Self::UpdateScopeNotificationSettings(_) => true,
            Self::UpdateChatActionBar(_) => true,
            Self::UpdateChatPinnedMessage(_) => true,
            Self::UpdateChatReplyMarkup(_) => true,
            Self::UpdateChatDraftMessage(_) => true,
            Self::UpdateChatOnlineMemberCount(_) => true,
            Self::UpdateNotification(_) => true,
            Self::UpdateNotificationGroup(_) => true,
            Self::UpdateActiveNotifications(_) => true,
            Self::UpdateHavePendingNotifications(_) => true,
            Self::UpdateDeleteMessages(_) => true,
            Self::UpdateUserChatAction(_) => true,
            Self::UpdateUserStatus(_) => true,
            Self::UpdateUser(_) => true,
            Self::UpdateBasicGroup(_) => true,
            Self::UpdateSupergroup(_) => true,
            Self::UpdateSecretChat(_) => true,
            Self::UpdateUserFullInfo(_) => true,
            Self::UpdateBasicGroupFullInfo(_) => true,
            Self::UpdateSupergroupFullInfo(_) => true,
            Self::UpdateServiceNotification(_) => true,
            Self::UpdateFile(_) => true,
            Self::UpdateFileGenerationStart(_) => true,
            Self::UpdateFileGenerationStop(_) => true,
            Self::UpdateCall(_) => true,
            Self::UpdateUserPrivacySettingRules(_) => true,
            Self::UpdateUnreadMessageCount(_) => true,
            Self::UpdateUnreadChatCount(_) => true,
            Self::UpdateOption(_) => true,
            Self::UpdateInstalledStickerSets(_) => true,
            Self::UpdateTrendingStickerSets(_) => true,
            Self::UpdateRecentStickers(_) => true,
            Self::UpdateFavoriteStickers(_) => true,
            Self::UpdateSavedAnimations(_) => true,
            Self::UpdateSelectedBackground(_) => true,
            Self::UpdateLanguagePackStrings(_) => true,
            Self::UpdateConnectionState(_) => true,
            Self::UpdateTermsOfService(_) => true,
            Self::UpdateUsersNearby(_) => true,
            Self::UpdateNewInlineQuery(_) => true,
            Self::UpdateNewChosenInlineResult(_) => true,
            Self::UpdateNewCallbackQuery(_) => true,
            Self::UpdateNewInlineCallbackQuery(_) => true,
            Self::UpdateNewShippingQuery(_) => true,
            Self::UpdateNewPreCheckoutQuery(_) => true,
            Self::UpdateNewCustomEvent(_) => true,
            Self::UpdateNewCustomQuery(_) => true,
            Self::UpdatePoll(_) => true,
            Self::UpdatePollAnswer(_) => true,
            _ => false,
        }
    }

    /// Tells an update from the answer to a request.
    pub fn is_update(&self) -> (r: bool)
        ensures
            r == self.carries_update(),
    {
        match self {
            Self::UpdateAuthorizationState(_) => true,
            Self::UpdateNewMessage(_) => true,
            Self::UpdateMessageSendAcknowledged(_) => true,
            Self::UpdateMessageSendSucceeded(_) => true,
            Self::UpdateMessageSendFailed(_) => true,
            Self::UpdateMessageContent(_) => true,
            Self::UpdateMessageEdited(_) => true,
            Self::UpdateMessageViews(_) => true,
            Self::UpdateMessageContentOpened(_) => true,
            Self::UpdateMessageMentionRead(_) => true,
            Self::UpdateMessageLiveLocationViewed(_) => true,
            Self::UpdateNewChat(_) => true,
            Self::UpdateChatChatList(_) => true,
            Self::UpdateChatTitle(_) => true,
            Self::UpdateChatPhoto(_) => true,
            Self::UpdateChatPermissions(_) => true,
            Self::UpdateChatLastMessage(_) => true,
            Self::UpdateChatOrder(_) => true,
            Self::UpdateChatIsPinned(_) => true,
            Self::UpdateChatIsMarkedAsUnread(_) => true,
            Self::UpdateChatIsSponsored(_) => true,
            Self::UpdateChatHasScheduledMessages(_) => true,
            Self::UpdateChatDefaultDisableNotification(_) => true,
            Self::UpdateChatReadInbox(_) => true,
            Self::UpdateChatReadOutbox(_) => true,
            Self::UpdateChatUnreadMentionCount(_) => true,
            Self::UpdateChatNotificationSettings(_) => true,
            Self::UpdateScopeNotificationSettings(_) => true,
            Self::UpdateChatActionBar(_) => true,
            Self::UpdateChatPinnedMessage(_) => true,
            Self::UpdateChatReplyMarkup(_) => true,
            Self::UpdateChatDraftMessage(_) => true,
            Self::UpdateChatOnlineMemberCount(_) => true,
            Self::UpdateNotification(_) => true,
            Self::UpdateNotificationGroup(_) => true,
            Self::UpdateActiveNotifications(_) => true,
            Self::UpdateHavePendingNotifications(_) => true,
            Self::UpdateDeleteMessages(_) => true,
            Self::UpdateUserChatAction(_) => true,
            Self::UpdateUserStatus(_) => true,
            Self::UpdateUser(_) => true,
            Self::UpdateBasicGroup(_) => true,
            Self::UpdateSupergroup(_) => true,
            Self::UpdateSecretChat(_) => true,
            Self::UpdateUserFullInfo(_) => true,
            Self::UpdateBasicGroupFullInfo(_) => true,
            Self::UpdateSupergroupFullInfo(_) => true,
            Self::UpdateServiceNotification(_) => true,
            Self::UpdateFile(_) => true,
            Self::UpdateFileGenerationStart(_) => true,
            Self::UpdateFileGenerationStop(_) => true,
            Self::UpdateCall(_) => true,
            Self::UpdateUserPrivacySettingRules(_) => true,
            Self::UpdateUnreadMessageCount(_) => true,
            Self::UpdateUnreadChatCount(_) => true,
            Self::UpdateOption(_) => true,
            Self::UpdateInstalledStickerSets(_) => true,
            Self::UpdateTrendingStickerSets(_) => true,
            Self::UpdateRecentStickers(_) => true,
            Self::UpdateFavoriteStickers(_) => true,
            Self::UpdateSavedAnimations(_) => true,
            Self::UpdateSelectedBackground(_) => true,
            Self::UpdateLanguagePackStrings(_) => true,
            Self::UpdateConnectionState(_) => true,
            Self::UpdateTermsOfService(_) => true,
            Self::UpdateUsersNearby(_) => true,
            Self::UpdateNewInlineQuery(_) => true,
            Self::UpdateNewChosenInlineResult(_) => true,
            Self::UpdateNewCallbackQuery(_) => true,
            Self::UpdateNewInlineCallbackQuery(_) => true,
            Self::UpdateNewShippingQuery(_) => true,
            Self::UpdateNewPreCheckoutQuery(_) => true,
            Self::UpdateNewCustomEvent(_) => true,
            Self::UpdateNewCustomQuery(_) => true,
            Self::UpdatePoll(_) => true,
            Self::UpdatePollAnswer(_) => true,
            _ => false,
        }
    }

    /// Which part of the list of arms a value stands in.
    spec fn rank(x: Response) -> int {
        match x {
            Self::Error(_) => 1,
            Self::Okay(_) => 1,
            Self::TdlibParameters(_) => 1,
            Self::AuthenticationCodeType(_) => 1,
            Self::AuthenticationCodeInfo(_) => 1,
            Self::EmailAddressAuthenticationCodeInfo(_) => 1,
            Self::TextEntity(_) => 1,
            Self::TextEntities(_) => 1,
            Self::FormattedText(_) => 1,
            Self::TermsOfService(_) => 1,
            Self::AuthorizationState(_) => 1,
            Self::PasswordState(_) => 1,
            Self::RecoveryEmailAddress(_) => 1,
            Self::TemporaryPasswordState(_) => 1,
            Self::LocalFile(_) => 1,
            Self::RemoteFile(_) => 1,
            Self::File(_) => 1,
            Self::InputFile(_) => 1,
            Self::PhotoSize(_) => 1,
            Self::Minithumbnail(_) => 1,
            Self::MaskPoint(_) => 1,
            Self::MaskPosition(_) => 1,
            Self::PollOption(_) => 1,
            Self::PollType(_) => 1,
            Self::Animation(_) => 1,
            Self::Audio(_) => 1,
            Self::Document(_) => 1,
            Self::Photo(_) => 1,
            Self::Sticker(_) => 1,
            Self::Video(_) => 1,
            Self::VideoNote(_) => 1,
            Self::VoiceNote(_) => 1,
            Self::Contact(_) => 1,
            Self::Location(_) => 1,
            Self::Venue(_) => 1,
            Self::Game(_) => 1,
            Self::Poll(_) => 1,
            Self::ProfilePhoto(_) => 1,
            Self::ChatPhoto(_) => 1,
            Self::UserType(_) => 1,
            Self::BotCommand(_) => 2,
            Self::BotInfo(_) => 2,
            Self::ChatLocation(_) => 2,
            Self::User(_) => 2,
            Self::UserFullInfo(_) => 2,
            Self::UserProfilePhoto(_) => 2,
            Self::UserProfilePhotos(_) => 2,
            Self::Users(_) => 2,
            Self::ChatAdministrator(_) => 2,
            Self::ChatAdministrators(_) => 2,
            Self::ChatPermissions(_) => 2,
            Self::ChatMemberStatus(_) => 2,
            Self::ChatMember(_) => 2,
            Self::ChatMembers(_) => 2,
            Self::ChatMembersFilter(_) => 2,
            Self::SupergroupMembersFilter(_) => 2,
            Self::BasicGroup(_) => 2,
            Self::BasicGroupFullInfo(_) => 2,
            Self::Supergroup(_) => 2,
            Self::SupergroupFullInfo(_) => 2,
            Self::SecretChatState(_) => 2,
            Self::SecretChat(_) => 2,
            Self::MessageForwardOrigin(_) => 2,
            Self::MessageForwardInfo(_) => 2,
            Self::MessageSendingState(_) => 2,
            Self::Message(_) => 2,
            Self::Messages(_) => 2,
            Self::FoundMessages(_) => 2,
            Self::NotificationSettingsScope(_) => 2,
            Self::ChatNotificationSettings(_) => 2,
            Self::ScopeNotificationSettings(_) => 2,
            Self::DraftMessage(_) => 2,
            Self::ChatType(_) => 2,
            Self::ChatList(_) => 2,
            Self::Chat(_) => 2,
            Self::Chats(_) => 2,
            Self::ChatNearby(_) => 2,
            Self::ChatsNearby(_) => 2,
            Self::ChatInviteLink(_) => 2,
            Self::ChatInviteLinkInfo(_) => 2,
            Self::PublicChatType(_) => 3,
            Self::ChatActionBar(_) => 3,
            Self::KeyboardButtonType(_) => 3,
            Self::KeyboardButton(_) => 3,
            Self::InlineKeyboardButtonType(_) => 3,
            Self::InlineKeyboardButton(_) => 3,
            Self::ReplyMarkup(_) => 3,
            Self::LoginUrlInfo(_) => 3,
            Self::RichText(_) => 3,
            Self::PageBlockCaption(_) => 3,
            Self::PageBlockListItem(_) => 3,
            Self::PageBlockHorizontalAlignment(_) => 3,
            Self::PageBlockVerticalAlignment(_) => 3,
            Self::PageBlockTableCell(_) => 3,
            Self::PageBlockRelatedArticle(_) => 3,
            Self::PageBlock(_) => 3,
            Self::WebPageInstantView(_) => 3,
            Self::WebPage(_) => 3,
            Self::Address(_) => 3,
            Self::LabeledPricePart(_) => 3,
            Self::Invoice(_) => 3,
            Self::OrderInfo(_) => 3,
            Self::ShippingOption(_) => 3,
            Self::SavedCredentials(_) => 3,
            Self::InputCredentials(_) => 3,
            Self::PaymentsProviderStripe(_) => 3,
            Self::PaymentForm(_) => 3,
            Self::ValidatedOrderInfo(_) => 3,
            Self::PaymentResult(_) => 3,
            Self::PaymentReceipt(_) => 3,
            Self::DatedFile(_) => 3,
            Self::PassportElementType(_) => 3,
            Self::Date(_) => 3,
            Self::PersonalDetails(_) => 3,
            Self::IdentityDocument(_) => 3,
            Self::InputIdentityDocument(_) => 3,
            Self::PersonalDocument(_) => 3,
            Self::InputPersonalDocument(_) => 3,
            Self::PassportElement(_) => 3,
            Self::InputPassportElement(_) => 3,
            Self::PassportElements(_) => 4,
            Self::PassportElementErrorSource(_) => 4,
            Self::PassportElementError(_) => 4,
            Self::PassportSuitableElement(_) => 4,
            Self::PassportRequiredElement(_) => 4,
            Self::PassportAuthorizationForm(_) => 4,
            Self::PassportElementsWithErrors(_) => 4,
            Self::EncryptedCredentials(_) => 4,
            Self::EncryptedPassportElement(_) => 4,
            Self::InputPassportElementErrorSource(_) => 4,
            Self::InputPassportElementError(_) => 4,
            Self::MessageContent(_) => 4,
            Self::TextEntityType(_) => 4,
            Self::InputThumbnail(_) => 4,
            Self::MessageSchedulingState(_) => 4,
            Self::SendMessageOptions(_) => 4,
            Self::InputMessageContent(_) => 4,
            Self::SearchMessagesFilter(_) => 4,
            Self::ChatAction(_) => 4,
            Self::UserStatus(_) => 4,
            Self::Stickers(_) => 4,
            Self::Emojis(_) => 4,
            Self::StickerSet(_) => 4,
            Self::StickerSetInfo(_) => 4,
            Self::StickerSets(_) => 4,
            Self::CallDiscardReason(_) => 4,
            Self::CallProtocol(_) => 4,
            Self::CallConnection(_) => 4,
            Self::CallId(_) => 4,
            Self::CallState(_) => 4,
            Self::CallProblem(_) => 4,
            Self::Call(_) => 4,
            Self::PhoneNumberAuthenticationSettings(_) => 4,
            Self::Animations(_) => 4,
            Self::ImportedContacts(_) => 4,
            Self::HttpUrl(_) => 4,
            Self::InputInlineQueryResult(_) => 4,
            Self::InlineQueryResult(_) => 4,
            Self::InlineQueryResults(_) => 4,
            Self::CallbackQueryPayload(_) => 4,
            Self::CallbackQueryAnswer(_) => 5,
            Self::CustomRequestResult(_) => 5,
            Self::GameHighScore(_) => 5,
            Self::GameHighScores(_) => 5,
            Self::ChatEventAction(_) => 5,
            Self::ChatEvent(_) => 5,
            Self::ChatEvents(_) => 5,
            Self::ChatEventLogFilters(_) => 5,
            Self::LanguagePackStringValue(_) => 5,
            Self::LanguagePackString(_) => 5,
            Self::LanguagePackStrings(_) => 5,
            Self::LanguagePackInfo(_) => 5,
            Self::LocalizationTargetInfo(_) => 5,
            Self::DeviceToken(_) => 5,
            Self::PushReceiverId(_) => 5,
            Self::BackgroundFill(_) => 5,
            Self::BackgroundType(_) => 5,
            Self::Background(_) => 5,
            Self::Backgrounds(_) => 5,
            Self::InputBackground(_) => 5,
            Self::Hashtags(_) => 5,
            Self::CanTransferOwnershipResult(_) => 5,
            Self::CheckChatUsernameResult(_) => 5,
            Self::PushMessageContent(_) => 5,
            Self::NotificationType(_) => 5,
            Self::NotificationGroupType(_) => 5,
            Self::Notification(_) => 5,
            Self::NotificationGroup(_) => 5,
            Self::OptionValue(_) => 5,
            Self::JsonObjectMember(_) => 5,
            Self::JsonValue(_) => 5,
            Self::UserPrivacySettingRule(_) => 5,
            Self::UserPrivacySettingRules(_) => 5,
            Self::UserPrivacySetting(_) => 5,
            Self::AccountTtl(_) => 5,
            Self::Session(_) => 5,
            Self::Sessions(_) => 5,
            Self::ConnectedWebsite(_) => 5,
            Self::ConnectedWebsites(_) => 5,
            Self::ChatReportReason(_) => 5,
            Self::PublicMessageLink(_) => 6,
            Self::MessageLinkInfo(_) => 6,
            Self::FilePart(_) => 6,
            Self::FileType(_) => 6,
            Self::StorageStatisticsByFileType(_) => 6,
            Self::StorageStatisticsByChat(_) => 6,
            Self::StorageStatistics(_) => 6,
            Self::StorageStatisticsFast(_) => 6,
            Self::DatabaseStatistics(_) => 6,
            Self::NetworkType(_) => 6,
            Self::NetworkStatisticsEntry(_) => 6,
            Self::NetworkStatistics(_) => 6,
            Self::AutoDownloadSettings(_) => 6,
            Self::AutoDownloadSettingsPresets(_) => 6,
            Self::ConnectionState(_) => 6,
            Self::TopChatCategory(_) => 6,
            Self::TMeUrlType(_) => 6,
            Self::TMeUrl(_) => 6,
            Self::TMeUrls(_) => 6,
            Self::Count(_) => 6,
            Self::Text(_) => 6,
            Self::Seconds(_) => 6,
            Self::DeepLinkInfo(_) => 6,
            Self::TextParseMode(_) => 6,
            Self::ProxyType(_) => 6,
            Self::Proxy(_) => 6,
            Self::Proxies(_) => 6,
            Self::InputSticker(_) => 6,
            Self::UpdateAuthorizationState(_) => 6,
            Self::UpdateNewMessage(_) => 6,
            Self::UpdateMessageSendAcknowledged(_) => 6,
            Self::UpdateMessageSendSucceeded(_) => 6,
            Self::UpdateMessageSendFailed(_) => 6,
            Self::UpdateMessageContent(_) => 6,
            Self::UpdateMessageEdited(_) => 6,
            Self::UpdateMessageViews(_) => 6,
            Self::UpdateMessageContentOpened(_) => 6,
            Self::UpdateMessageMentionRead(_) => 6,
            Self::UpdateMessageLiveLocationViewed(_) => 6,
            Self::UpdateNewChat(_) => 6,
            Self::UpdateChatChatList(_) => 7,
            Self::UpdateChatTitle(_) => 7,
            Self::UpdateChatPhoto(_) => 7,
            Self::UpdateChatPermissions(_) => 7,
            Self::UpdateChatLastMessage(_) => 7,
            Self::UpdateChatOrder(_) => 7,
            Self::UpdateChatIsPinned(_) => 7,
            Self::UpdateChatIsMarkedAsUnread(_) => 7,
            Self::UpdateChatIsSponsored(_) => 7,
            Self::UpdateChatHasScheduledMessages(_) => 7,
            Self::UpdateChatDefaultDisableNotification(_) => 7,
            Self::UpdateChatReadInbox(_) => 7,
            Self::UpdateChatReadOutbox(_) => 7,
            Self::UpdateChatUnreadMentionCount(_) => 7,
            Self::UpdateChatNotificationSettings(_) => 7,
            Self::UpdateScopeNotificationSettings(_) => 7,
            Self::UpdateChatActionBar(_) => 7,
            Self::UpdateChatPinnedMessage(_) => 7,
            Self::UpdateChatReplyMarkup(_) => 7,
            Self::UpdateChatDraftMessage(_) => 7,
            Self::UpdateChatOnlineMemberCount(_) => 7,
            Self::UpdateNotification(_) => 7,
            Self::UpdateNotificationGroup(_) => 7,
            Self::UpdateActiveNotifications(_) => 7,
            Self::UpdateHavePendingNotifications(_) => 7,
            Self::UpdateDeleteMessages(_) => 7,
            Self::UpdateUserChatAction(_) => 7,
            Self::UpdateUserStatus(_) => 7,
            Self::UpdateUser(_) => 7,
            Self::UpdateBasicGroup(_) => 7,
            Self::UpdateSupergroup(_) => 7,
            Self::UpdateSecretChat(_) => 7,
            Self::UpdateUserFullInfo(_) => 7,
            Self::UpdateBasicGroupFullInfo(_) => 7,
            Self::UpdateSupergroupFullInfo(_) => 7,
            Self::UpdateServiceNotification(_) => 7,
            Self::UpdateFile(_) => 7,
            Self::UpdateFileGenerationStart(_) => 7,
            Self::UpdateFileGenerationStop(_) => 7,
            Self::UpdateCall(_) => 7,
            Self::UpdateUserPrivacySettingRules(_) => 8,
            Self::UpdateUnreadMessageCount(_) => 8,
            Self::UpdateUnreadChatCount(_) => 8,
            Self::UpdateOption(_) => 8,
            Self::UpdateInstalledStickerSets(_) => 8,
            Self::UpdateTrendingStickerSets(_) => 8,
            Self::UpdateRecentStickers(_) => 8,
            Self::UpdateFavoriteStickers(_) => 8,
            Self::UpdateSavedAnimations(_) => 8,
            Self::UpdateSelectedBackground(_) => 8,
            Self::UpdateLanguagePackStrings(_) => 8,
            Self::UpdateConnectionState(_) => 8,
            Self::UpdateTermsOfService(_) => 8,
            Self::UpdateUsersNearby(_) => 8,
            Self::UpdateNewInlineQuery(_) => 8,
            Self::UpdateNewChosenInlineResult(_) => 8,
            Self::UpdateNewCallbackQuery(_) => 8,
            Self::UpdateNewInlineCallbackQuery(_) => 8,
            Self::UpdateNewShippingQuery(_) => 8,
            Self::UpdateNewPreCheckoutQuery(_) => 8,
            Self::UpdateNewCustomEvent(_) => 8,
            Self::UpdateNewCustomQuery(_) => 8,
            Self::UpdatePoll(_) => 8,
            Self::UpdatePollAnswer(_) => 8,
            Self::Updates(_) => 8,
            Self::LogStream(_) => 8,
            Self::LogVerbosityLevel(_) => 8,
            Self::LogTags(_) => 8,
            Self::TestInt(_) => 8,
            Self::TestString(_) => 8,
            Self::TestBytes(_) => 8,
            Self::TestVectorInt(_) => 8,
            Self::TestVectorIntObject(_) => 8,
            Self::TestVectorString(_) => 8,
            Self::TestVectorStringObject(_) => 8,
        }
    }

    /// A discriminator of `Error` belongs to the arm `Error`.
    pub proof fn routes_to_error(t: Seq<char>)
        requires
            Error::known(t),
        ensures
            Self::route(t) == 1,
    {
        reveal_strlit("error");
        assert("error"@.len() == 5);
        Self::tags_spelled_5();
    }

    /// A document whose discriminator belongs to `Error` decodes through the envelope exactly as it
    /// decodes through `Error` itself.
    pub proof fn agrees_with_error(d: Doc, at: Seq<char>)
        requires
            tag_of(d) is Some,
            Error::known(tag_of(d)->Some_0),
        ensures
            Self::parse(d, at) == Error::parse(d, at),
    {
        reveal(<Response as Wire>::parse);
        Self::routes_to_error(tag_of(d)->Some_0);
    }

    /// A discriminator of `Okay` belongs to the arm `Okay`.
    pub proof fn routes_to_okay(t: Seq<char>)
        requires
            Okay::known(t),
        ensures
            Self::route(t) == 2,
    {
        reveal_strlit("ok");
        assert("ok"@.len() == 2);
    }

    /// A document whose discriminator belongs to `Okay` decodes through the envelope exactly as it
    /// decodes through `Okay` itself.
    pub proof fn agrees_with_okay(d: Doc, at: Seq<char>)
        requires
            tag_of(d) is Some,
            Okay::known(tag_of(d)->Some_0),
        ensures
            Self::parse(d, at) == Okay::parse(d, at),
    {
        reveal(<Response as Wire>::parse);
        Self::routes_to_okay(tag_of(d)->Some_0);
    }

    /// A discriminator of `TdlibParameters` belongs to the arm `TdlibParameters`.
    pub proof fn routes_to_tdlib_parameters(t: Seq<char>)
        requires
            TdlibParameters::known(t),
        ensures
            Self::route(t) == 3,
    {
        reveal_strlit("tdlibParameters");
        assert("tdlibParameters"@.len() == 15);
        Self::tags_spelled_15();
    }

    /// A document whose discriminator belongs to `TdlibParameters` decodes through the envelope
    /// exactly as it decodes through `TdlibParameters` itself.
    pub proof fn agrees_with_tdlib_parameters(d: Doc, at: Seq<char>)
        requires
            tag_of(d) is Some,
            TdlibParameters::known(tag_of(d)->Some_0),
        ensures
            Self::parse(d, at) == TdlibParameters::parse(d, at),
    {
        reveal(<Response as Wire>::parse);
        Self::routes_to_tdlib_parameters(tag_of(d)->Some_0);
    }

    /// A discriminator of `AuthenticationCodeType` belongs to the arm `AuthenticationCodeType`.
    pub proof fn routes_to_authentication_code_type(t: Seq<char>)
        requires
            AuthenticationCodeType::known(t),
        ensures
            Self::route(t) == 4,
    {
        reveal_strlit("authenticationCodeTypeTelegramMessage");
        reveal_strlit("authenticationCodeTypeSms");
        reveal_strlit("authenticationCodeTypeCall");
        reveal_strlit("authenticationCodeTypeFlashCall");
        assert("authenticationCodeTypeTelegramMessage"@.len() == 37);
        assert("authenticationCodeTypeSms"@.len() == 25);
        assert("authenticationCodeTypeCall"@.len() == 26);
        assert("authenticationCodeTypeFlashCall"@.len() == 31);
        Self::tags_spelled_25();
        Self::tags_spelled_26();
        Self::tags_spelled_31();
        Self::tags_spelled_37();
    }

    /// A document whose discriminator belongs to `AuthenticationCodeType` decodes through the
    /// envelope exactly as it decodes through `AuthenticationCodeType` itself.
    pub proof fn agrees_with_authentication_code_type(d: Doc, at: Seq<char>)
        requires
            tag_of(d) is Some,
            AuthenticationCodeType::known(tag_of(d)->Some_0),
        ensures
            Self::parse(d, at) == AuthenticationCodeType::parse(d, at),
    {
        reveal(<Response as Wire>::parse);
        Self::routes_to_authentication_code_type(tag_of(d)->Some_0);
    }

    /// A discriminator of `AuthenticationCodeInfo` belongs to the arm `AuthenticationCodeInfo`.
    pub proof fn routes_to_authentication_code_info(t: Seq<char>)
        requires
            AuthenticationCodeInfo::known(t),
        ensures
            Self::route(t) == 5,
    {
        reveal_strlit("authenticationCodeInfo");
        assert("authenticationCodeInfo"@.len() == 22);
        Self::tags_spelled_22();
    }

    /// A document whose discriminator belongs to `AuthenticationCodeInfo` decodes through the
    /// envelope exactly as it decodes through `AuthenticationCodeInfo` itself.
    pub proof fn agrees_with_authentication_code_info(d: Doc, at: Seq<char>)
        requires
            tag_of(d) is Some,
            AuthenticationCodeInfo::known(tag_of(d)->Some_0),
        ensures
            Self::parse(d, at) == AuthenticationCodeInfo::parse(d, at),
    {
        reveal(<Response as Wire>::parse);
        Self::routes_to_authentication_code_info(tag_of(d)->Some_0);
    }

    /// A discriminator of `EmailAddressAuthenticationCodeInfo` belongs to the arm `EmailAddressAuthenticationCodeInfo`.
    pub proof fn routes_to_email_address_authentication_code_info(t: Seq<char>)
        requires
            EmailAddressAuthenticationCodeInfo::known(t),
        ensures
            Self::route(t) == 6,
    {
        reveal_strlit("emailAddressAuthenticationCodeInfo");
        assert("emailAddressAuthenticationCodeInfo"@.len() == 34);
        Self::tags_spelled_34();
    }

    /// A document whose discriminator belongs to `EmailAddressAuthenticationCodeInfo` decodes
    /// through the envelope exactly as it decodes through `EmailAddressAuthenticationCodeInfo`
    /// itself.
    pub proof fn agrees_with_email_address_authentication_code_info(d: Doc, at: Seq<char>)
        requires
            tag_of(d) is Some,
            EmailAddressAuthenticationCodeInfo::known(tag_of(d)->Some_0),
        ensures
            Self::parse(d, at) == EmailAddressAuthenticationCodeInfo::parse(d, at),
    {
        reveal(<Response as Wire>::parse);
        Self::routes_to_email_address_authentication_code_info(tag_of(d)->Some_0);
    }

    /// A discriminator of `TextEntity` belongs to the arm `TextEntity`.
    pub proof fn routes_to_text_entity(t: Seq<char>)
        requires
            TextEntity::known(t),
        ensures
            Self::route(t) == 7,
    {
        reveal_strlit("textEntity");
        assert("textEntity"@.len() == 10);
        Self::tags_spelled_10();
    }

    /// A document whose discriminator belongs to `TextEntity` decodes through the envelope exactly
    /// as it decodes through `TextEntity` itself.
    pub proof fn agrees_with_text_entity(d: Doc, at: Seq<char>)
        requires
            tag_of(d) is Some,
            TextEntity::known(tag_of(d)->Some_0),
        ensures
            Self::parse(d, at) == TextEntity::parse(d, at),
    {
        reveal(<Response as Wire>::parse);
        Self::routes_to_text_entity(tag_of(d)->Some_0);
    }

    /// A discriminator of `TextEntities` belongs to the arm `TextEntities`.
    pub proof fn routes_to_text_entities(t: Seq<char>)
        requires
            TextEntities::known(t),
        ensures
            Self::route(t) == 8,
    {
        reveal_strlit("textEntities");
        assert("textEntities"@.len() == 12);
        Self::tags_spelled_12();
    }

    /// A document whose discriminator belongs to `TextEntities` decodes through the envelope
    /// exactly as it decodes through `TextEntities` itself.
    pub proof fn agrees_with_text_entities(d: Doc, at: Seq<char>)
        requires
            tag_of(d) is Some,
            TextEntities::known(tag_of(d)->Some_0),
        ensures
            Self::parse(d, at) == TextEntities::parse(d, at),
    {
        reveal(<Response as Wire>::parse);
        Self::routes_to_text_entities(tag_of(d)->Some_0);
    }

    /// A discriminator of `FormattedText` belongs to the arm `FormattedText`.
    pub proof fn routes_to_formatted_text(t: Seq<char>)
        requires
            FormattedText::known(t),
        ensures
            Self::route(t) == 9,
    {
        reveal_strlit("formattedText");
        assert("formattedText"@.len() == 13);
        Self::tags_spelled_13();
    }

    /// A document whose discriminator belongs to `FormattedText` decodes through the envelope
    /// exactly as it decodes through `FormattedText` itself.
    pub proof fn agrees_with_formatted_text(d: Doc, at: Seq<char>)
        requires
            tag_of(d) is Some,
            FormattedText::known(tag_of(d)->Some_0),
        ensures
            Self::parse(d, at) == FormattedText::parse(d, at),
    {
        reveal(<Response as Wire>::parse);
        Self::routes_to_formatted_text(tag_of(d)->Some_0);
    }

    /// A discriminator of `TermsOfService` belongs to the arm `TermsOfService`.
    pub proof fn routes_to_terms_of_service(t: Seq<char>)
        requires
            TermsOfService::known(t),
        ensures
            Self::route(t) == 10,
    {
        reveal_strlit("termsOfService");
        assert("termsOfService"@.len() == 14);
        Self::tags_spelled_14();
    }

    /// A document whose discriminator belongs to `TermsOfService` decodes through the envelope
    /// exactly as it decodes through `TermsOfService` itself.
    pub proof fn agrees_with_terms_of_service(d: Doc, at: Seq<char>)
        requires
            tag_of(d) is Some,
            TermsOfService::known(tag_of(d)->Some_0),
        ensures
            Self::parse(d, at) == TermsOfService::parse(d, at),
    {
        reveal(<Response as Wire>::parse);
        Self::routes_to_terms_of_service(tag_of(d)->Some_0);
    }

    /// A discriminator of `AuthorizationState` belongs to the arm `AuthorizationState`.
    pub proof fn routes_to_authorization_state(t: Seq<char>)
        requires
            AuthorizationState::known(t),
        ensures
            Self::route(t) == 11,
    {
        reveal_strlit("authorizationStateWaitTdlibParameters");
        reveal_strlit("authorizationStateWaitEncryptionKey");
        reveal_strlit("authorizationStateWaitPhoneNumber");
        reveal_strlit("authorizationStateWaitCode");
        reveal_strlit("authorizationStateWaitOtherDeviceConfirmation");
        reveal_strlit("authorizationStateWaitRegistration");
        reveal_strlit("authorizationStateWaitPassword");
        reveal_strlit("authorizationStateReady");
        reveal_strlit("authorizationStateLoggingOut");
        reveal_strlit("authorizationStateClosing");
        reveal_strlit("authorizationStateClosed");
        assert("authorizationStateWaitTdlibParameters"@.len() == 37);
        assert("authorizationStateWaitEncryptionKey"@.len() == 35);
        assert("authorizationStateWaitPhoneNumber"@.len() == 33);
        assert("authorizationStateWaitCode"@.len() == 26);
        assert("authorizationStateWaitOtherDeviceConfirmation"@.len() == 45);
        assert("authorizationStateWaitRegistration"@.len() == 34);
        assert("authorizationStateWaitPassword"@.len() == 30);
        assert("authorizationStateReady"@.len() == 23);
        assert("authorizationStateLoggingOut"@.len() == 28);
        assert("authorizationStateClosing"@.len() == 25);
        assert("authorizationStateClosed"@.len() == 24);
        Self::tags_spelled_23();
        Self::tags_spelled_24();
        Self::tags_spelled_25();
        Self::tags_spelled_26();
        Self::tags_spelled_28();
        Self::tags_spelled_30();
        Self::tags_spelled_33();
        Self::tags_spelled_34();
        Self::tags_spelled_35();
        Self::tags_spelled_37();
        Self::tags_spelled_45();
    }

    /// A document whose discriminator belongs to `AuthorizationState` decodes through the envelope
    /// exactly as it decodes through `AuthorizationState` itself.
    pub proof fn agrees_with_authorization_state(d: Doc, at: Seq<char>)
        requires
            tag_of(d) is Some,
            AuthorizationState::known(tag_of(d)->Some_0),
        ensures
            Self::parse(d, at) == AuthorizationState::parse(d, at),
    {
        reveal(<Response as Wire>::parse);
        Self::routes_to_authorization_state(tag_of(d)->Some_0);
    }

    /// A discriminator of `PasswordState` belongs to the arm `PasswordState`.
    pub proof fn routes_to_password_state(t: Seq<char>)
        requires
            PasswordState::known(t),
        ensures
            Self::route(t) == 12,
    {
        reveal_strlit("passwordState");
        assert("passwordState"@.len() == 13);
        Self::tags_spelled_13();
    }

    /// A document whose discriminator belongs to `PasswordState` decodes through the envelope
    /// exactly as it decodes through `PasswordState` itself.
    pub proof fn agrees_with_password_state(d: Doc, at: Seq<char>)
        requires
            tag_of(d) is Some,
            PasswordState::known(tag_of(d)->Some_0),
        ensures
            Self::parse(d, at) == PasswordState::parse(d, at),
    {
        reveal(<Response as Wire>::parse);
        Self::routes_to_password_state(tag_of(d)->Some_0);
    }

    /// A discriminator of `RecoveryEmailAddress` belongs to the arm `RecoveryEmailAddress`.
    pub proof fn routes_to_recovery_email_address(t: Seq<char>)
        requires
            RecoveryEmailAddress::known(t),
        ensures
            Self::route(t) == 13,
    {
        reveal_strlit("recoveryEmailAddress");
        assert("recoveryEmailAddress"@.len() == 20);
        Self::tags_spelled_20();
    }

    /// A document whose discriminator belongs to `RecoveryEmailAddress` decodes through the
    /// envelope exactly as it decodes through `RecoveryEmailAddress` itself.
    pub proof fn agrees_with_recovery_email_address(d: Doc, at: Seq<char>)
        requires
            tag_of(d) is Some,
            RecoveryEmailAddress::known(tag_of(d)->Some_0),
        ensures
            Self::parse(d, at) == RecoveryEmailAddress::parse(d, at),
    {
        reveal(<Response as Wire>::parse);
        Self::routes_to_recovery_email_address(tag_of(d)->Some_0);
    }

    /// A discriminator of `TemporaryPasswordState` belongs to the arm `TemporaryPasswordState`.
    pub proof fn routes_to_temporary_password_state(t: Seq<char>)
        requires
            TemporaryPasswordState::known(t),
        ensures
            Self::route(t) == 14,
    {
        reveal_strlit("temporaryPasswordState");
        assert("temporaryPasswordState"@.len() == 22);
        Self::tags_spelled_22();
    }

    /// A document whose discriminator belongs to `TemporaryPasswordState` decodes through the
    /// envelope exactly as it decodes through `TemporaryPasswordState` itself.
    pub proof fn agrees_with_temporary_password_state(d: Doc, at: Seq<char>)
        requires
            tag_of(d) is Some,
            TemporaryPasswordState::known(tag_of(d)->Some_0),
        ensures
            Self::parse(d, at) == TemporaryPasswordState::parse(d, at),
    {
        reveal(<Response as Wire>::parse);
        Self::routes_to_temporary_password_state(tag_of(d)->Some_0);
    }

    /// A discriminator of `LocalFile` belongs to the arm `LocalFile`.
    pub proof fn routes_to_local_file(t: Seq<char>)
        requires
            LocalFile::known(t),
        ensures
            Self::route(t) == 15,
    {
        reveal_strlit("localFile");
        assert("localFile"@.len() == 9);
        Self::tags_spelled_9();
    }

    /// A document whose discriminator belongs to `LocalFile` decodes through the envelope exactly
    /// as it decodes through `LocalFile` itself.
    pub proof fn agrees_with_local_file(d: Doc, at: Seq<char>)
        requires
            tag_of(d) is Some,
            LocalFile::known(tag_of(d)->Some_0),
        ensures
            Self::parse(d, at) == LocalFile::parse(d, at),
    {
        reveal(<Response as Wire>::parse);
        Self::routes_to_local_file(tag_of(d)->Some_0);
    }

    /// A discriminator of `RemoteFile` belongs to the arm `RemoteFile`.
    pub proof fn routes_to_remote_file(t: Seq<char>)
        requires
            RemoteFile::known(t),
        ensures
            Self::route(t) == 16,
    {
        reveal_strlit("remoteFile");
        assert("remoteFile"@.len() == 10);
        Self::tags_spelled_10();
    }

    /// A document whose discriminator belongs to `RemoteFile` decodes through the envelope exactly
    /// as it decodes through `RemoteFile` itself.
    pub proof fn agrees_with_remote_file(d: Doc, at: Seq<char>)
        requires
            tag_of(d) is Some,
            RemoteFile::known(tag_of(d)->Some_0),
        ensures
            Self::parse(d, at) == RemoteFile::parse(d, at),
    {
        reveal(<Response as Wire>::parse);
        Self::routes_to_remote_file(tag_of(d)->Some_0);
    }

    /// A discriminator of `File` belongs to the arm `File`.
    pub proof fn routes_to_file(t: Seq<char>)
        requires
            File::known(t),
        ensures
            Self::route(t) == 17,
    {
        reveal_strlit("file");
        assert("file"@.len() == 4);
        Self::tags_spelled_4();
    }

    /// A document whose discriminator belongs to `File` decodes through the envelope exactly as it
    /// decodes through `File` itself.
    pub proof fn agrees_with_file(d: Doc, at: Seq<char>)
        requires
            tag_of(d) is Some,
            File::known(tag_of(d)->Some_0),
        ensures
            Self::parse(d, at) == File::parse(d, at),
    {
        reveal(<Response as Wire>::parse);
        Self::routes_to_file(tag_of(d)->Some_0);
    }

    /// A discriminator of `InputFile` belongs to the arm `InputFile`.
    pub proof fn routes_to_input_file(t: Seq<char>)
        requires
            InputFile::known(t),
        ensures
            Self::route(t) == 18,
    {
        reveal_strlit("inputFileId");
        reveal_strlit("inputFileRemote");
        reveal_strlit("inputFileLocal");
        reveal_strlit("inputFileGenerated");
        assert("inputFileId"@.len() == 11);
        assert("inputFileRemote"@.len() == 15);
        assert("inputFileLocal"@.len() == 14);
        assert("inputFileGenerated"@.len() == 18);
        Self::tags_spelled_11();
        Self::tags_spelled_14();
        Self::tags_spelled_15();
        Self::tags_spelled_18();
    }

    /// A document whose discriminator belongs to `InputFile` decodes through the envelope exactly
    /// as it decodes through `InputFile` itself.
    pub proof fn agrees_with_input_file(d: Doc, at: Seq<char>)
        requires
            tag_of(d) is Some,
            InputFile::known(tag_of(d)->Some_0),
        ensures
            Self::parse(d, at) == InputFile::parse(d, at),
    {
        reveal(<Response as Wire>::parse);
        Self::routes_to_input_file(tag_of(d)->Some_0);
    }

    /// A discriminator of `PhotoSize` belongs to the arm `PhotoSize`.
    pub proof fn routes_to_photo_size(t: Seq<char>)
        requires
            PhotoSize::known(t),
        ensures
            Self::route(t) == 19,
    {
        reveal_strlit("photoSize");
        assert("photoSize"@.len() == 9);
        Self::tags_spelled_9();
    }

    /// A document whose discriminator belongs to `PhotoSize` decodes through the envelope exactly
    /// as it decodes through `PhotoSize` itself.
    pub proof fn agrees_with_photo_size(d: Doc, at: Seq<char>)
        requires
            tag_of(d) is Some,
            PhotoSize::known(tag_of(d)->Some_0),
        ensures
            Self::parse(d, at) == PhotoSize::parse(d, at),
    {
        reveal(<Response as Wire>::parse);
        Self::routes_to_photo_size(tag_of(d)->Some_0);
    }

    /// A discriminator of `Minithumbnail` belongs to the arm `Minithumbnail`.
    pub proof fn routes_to_minithumbnail(t: Seq<char>)
        requires
            Minithumbnail::known(t),
        ensures
            Self::route(t) == 20,
    {
        reveal_strlit("minithumbnail");
        assert("minithumbnail"@.len() == 13);
        Self::tags_spelled_13();
    }

    /// A document whose discriminator belongs to `Minithumbnail` decodes through the envelope
    /// exactly as it decodes through `Minithumbnail` itself.
    pub proof fn agrees_with_minithumbnail(d: Doc, at: Seq<char>)
        requires
            tag_of(d) is Some,
            Minithumbnail::known(tag_of(d)->Some_0),
        ensures
            Self::parse(d, at) == Minithumbnail::parse(d, at),
    {
        reveal(<Response as Wire>::parse);
        Self::routes_to_minithumbnail(tag_of(d)->Some_0);
    }

    /// A discriminator of `MaskPoint` belongs to the arm `MaskPoint`.
    pub proof fn routes_to_mask_point(t: Seq<char>)
        requires
            MaskPoint::known(t),
        ensures
            Self::route(t) == 21,
    {
        reveal_strlit("maskPointForehead");
        reveal_strlit("maskPointEyes");
        reveal_strlit("maskPointMouth");
        reveal_strlit("maskPointChin");
        assert("maskPointForehead"@.len() == 17);
        assert("maskPointEyes"@.len() == 13);
        assert("maskPointMouth"@.len() == 14);
        assert("maskPointChin"@.len() == 13);
        Self::tags_spelled_13();
        Self::tags_spelled_14();
        Self::tags_spelled_17();
    }

    /// A document whose discriminator belongs to `MaskPoint` decodes through the envelope exactly
    /// as it decodes through `MaskPoint` itself.
    pub proof fn agrees_with_mask_point(d: Doc, at: Seq<char>)
        requires
            tag_of(d) is Some,
            MaskPoint::known(tag_of(d)->Some_0),
        ensures
            Self::parse(d, at) == MaskPoint::parse(d, at),
    {
        reveal(<Response as Wire>::parse);
        Self::routes_to_mask_point(tag_of(d)->Some_0);
    }

    /// A discriminator of `MaskPosition` belongs to the arm `MaskPosition`.
    pub proof fn routes_to_mask_position(t: Seq<char>)
        requires
            MaskPosition::known(t),
        ensures
            Self::route(t) == 22,
    {
        reveal_strlit("maskPosition");
        assert("maskPosition"@.len() == 12);
        Self::tags_spelled_12();
    }

    /// A document whose discriminator belongs to `MaskPosition` decodes through the envelope
    /// exactly as it decodes through `MaskPosition` itself.
    pub proof fn agrees_with_mask_position(d: Doc, at: Seq<char>)
        requires
            tag_of(d) is Some,
            MaskPosition::known(tag_of(d)->Some_0),
        ensures
            Self::parse(d, at) == MaskPosition::parse(d, at),
    {
        reveal(<Response as Wire>::parse);
        Self::routes_to_mask_position(tag_of(d)->Some_0);
    }

    /// A discriminator of `PollOption` belongs to the arm `PollOption`.
    pub proof fn routes_to_poll_option(t: Seq<char>)
        requires
            PollOption::known(t),
        ensures
            Self::route(t) == 23,
    {
        reveal_strlit("pollOption");
        assert("pollOption"@.len() == 10);
        Self::tags_spelled_10();
    }

    /// A document whose discriminator belongs to `PollOption` decodes through the envelope exactly
    /// as it decodes through `PollOption` itself.
    pub proof fn agrees_with_poll_option(d: Doc, at: Seq<char>)
        requires
            tag_of(d) is Some,
            PollOption::known(tag_of(d)->Some_0),
        ensures
            Self::parse(d, at) == PollOption::parse(d, at),
    {
        reveal(<Response as Wire>::parse);
        Self::routes_to_poll_option(tag_of(d)->Some_0);
    }

    /// A discriminator of `PollType` belongs to the arm `PollType`.
    pub proof fn routes_to_poll_type(t: Seq<char>)
        requires
            PollType::known(t),
        ensures
            Self::route(t) == 24,
    {
        reveal_strlit("pollTypeRegular");
        reveal_strlit("pollTypeQuiz");
        assert("pollTypeRegular"@.len() == 15);
        assert("pollTypeQuiz"@.len() == 12);
        Self::tags_spelled_12();
        Self::tags_spelled_15();
    }

    /// A document whose discriminator belongs to `PollType` decodes through the envelope exactly as
    /// it decodes through `PollType` itself.
    pub proof fn agrees_with_poll_type(d: Doc, at: Seq<char>)
        requires
            tag_of(d) is Some,
            PollType::known(tag_of(d)->Some_0),
        ensures
            Self::parse(d, at) == PollType::parse(d, at),
    {
        reveal(<Response as Wire>::parse);
        Self::routes_to_poll_type(tag_of(d)->Some_0);
    }

    /// A discriminator of `Animation` belongs to the arm `Animation`.
    pub proof fn routes_to_animation(t: Seq<char>)
        requires
            Animation::known(t),
        ensures
            Self::route(t) == 25,
    {
        reveal_strlit("animation");
        assert("animation"@.len() == 9);
        Self::tags_spelled_9();
    }

    /// A document whose discriminator belongs to `Animation` decodes through the envelope exactly
    /// as it decodes through `Animation` itself.
    pub proof fn agrees_with_animation(d: Doc, at: Seq<char>)
        requires
            tag_of(d) is Some,
            Animation::known(tag_of(d)->Some_0),
        ensures
            Self::parse(d, at) == Animation::parse(d, at),
    {
        reveal(<Response as Wire>::parse);
        Self::routes_to_animation(tag_of(d)->Some_0);
    }

    /// A discriminator of `Audio` belongs to the arm `Audio`.
    pub proof fn routes_to_audio(t: Seq<char>)
        requires
            Audio::known(t),
        ensures
            Self::route(t) == 26,
    {
        reveal_strlit("audio");
        assert("audio"@.len() == 5);
        Self::tags_spelled_5();
    }

    /// A document whose discriminator belongs to `Audio` decodes through the envelope exactly as it
    /// decodes through `Audio` itself.
    pub proof fn agrees_with_audio(d: Doc, at: Seq<char>)
        requires
            tag_of(d) is Some,
            Audio::known(tag_of(d)->Some_0),
        ensures
            Self::parse(d, at) == Audio::parse(d, at),
    {
        reveal(<Response as Wire>::parse);
        Self::routes_to_audio(tag_of(d)->Some_0);
    }

    /// A discriminator of `Document` belongs to the arm `Document`.
    pub proof fn routes_to_document(t: Seq<char>)
        requires
            Document::known(t),
        ensures
            Self::route(t) == 27,
    {
        reveal_strlit("document");
        assert("document"@.len() == 8);
        Self::tags_spelled_8();
    }

    /// A document whose discriminator belongs to `Document` decodes through the envelope exactly as
    /// it decodes through `Document` itself.
    pub proof fn agrees_with_document(d: Doc, at: Seq<char>)
        requires
            tag_of(d) is Some,
            Document::known(tag_of(d)->Some_0),
        ensures
            Self::parse(d, at) == Document::parse(d, at),
    {
        reveal(<Response as Wire>::parse);
        Self::routes_to_document(tag_of(d)->Some_0);
    }

    /// A discriminator of `Photo` belongs to the arm `Photo`.
    pub proof fn routes_to_photo(t: Seq<char>)
        requires
            Photo::known(t),
        ensures
            Self::route(t) == 28,
    {
        reveal_strlit("photo");
        assert("photo"@.len() == 5);
        Self::tags_spelled_5();
    }

    /// A document whose discriminator belongs to `Photo` decodes through the envelope exactly as it
    /// decodes through `Photo` itself.
    pub proof fn agrees_with_photo(d: Doc, at: Seq<char>)
        requires
            tag_of(d) is Some,
            Photo::known(tag_of(d)->Some_0),
        ensures
            Self::parse(d, at) == Photo::parse(d, at),
    {
        reveal(<Response as Wire>::parse);
        Self::routes_to_photo(tag_of(d)->Some_0);
    }

    /// A discriminator of `Sticker` belongs to the arm `Sticker`.
    pub proof fn routes_to_sticker(t: Seq<char>)
        requires
            Sticker::known(t),
        ensures
            Self::route(t) == 29,
    {
        reveal_strlit("sticker");
        assert("sticker"@.len() == 7);
        Self::tags_spelled_7();
    }

    /// A document whose discriminator belongs to `Sticker` decodes through the envelope exactly as
    /// it decodes through `Sticker` itself.
    pub proof fn agrees_with_sticker(d: Doc, at: Seq<char>)
        requires
            tag_of(d) is Some,
            Sticker::known(tag_of(d)->Some_0),
        ensures
            Self::parse(d, at) == Sticker::parse(d, at),
    {
        reveal(<Response as Wire>::parse);
        Self::routes_to_sticker(tag_of(d)->Some_0);
    }

    /// A discriminator of `Video` belongs to the arm `Video`.
    pub proof fn routes_to_video(t: Seq<char>)
        requires
            Video::known(t),
        ensures
            Self::route(t) == 30,
    {
        reveal_strlit("video");
        assert("video"@.len() == 5);
        Self::tags_spelled_5();
    }

    /// A document whose discriminator belongs to `Video` decodes through the envelope exactly as it
    /// decodes through `Video` itself.
    pub proof fn agrees_with_video(d: Doc, at: Seq<char>)
        requires
            tag_of(d) is Some,
            Video::known(tag_of(d)->Some_0),
        ensures
            Self::parse(d, at) == Video::parse(d, at),
    {
        reveal(<Response as Wire>::parse);
        Self::routes_to_video(tag_of(d)->Some_0);
    }

    /// A discriminator of `VideoNote` belongs to the arm `VideoNote`.
    pub proof fn routes_to_video_note(t: Seq<char>)
        requires
            VideoNote::known(t),
        ensures
            Self::route(t) == 31,
    {
        reveal_strlit("videoNote");
        assert("videoNote"@.len() == 9);
        Self::tags_spelled_9();
    }

    /// A document whose discriminator belongs to `VideoNote` decodes through the envelope exactly
    /// as it decodes through `VideoNote` itself.
    pub proof fn agrees_with_video_note(d: Doc, at: Seq<char>)
        requires
            tag_of(d) is Some,
            VideoNote::known(tag_of(d)->Some_0),
        ensures
            Self::parse(d, at) == VideoNote::parse(d, at),
    {
        reveal(<Response as Wire>::parse);
        Self::routes_to_video_note(tag_of(d)->Some_0);
    }

    /// A discriminator of `VoiceNote` belongs to the arm `VoiceNote`.
    pub proof fn routes_to_voice_note(t: Seq<char>)
        requires
            VoiceNote::known(t),
        ensures
            Self::route(t) == 32,
    {
        reveal_strlit("voiceNote");
        assert("voiceNote"@.len() == 9);
        Self::tags_spelled_9();
    }

    /// A document whose discriminator belongs to `VoiceNote` decodes through the envelope exactly
    /// as it decodes through `VoiceNote` itself.
    pub proof fn agrees_with_voice_note(d: Doc, at: Seq<char>)
        requires
            tag_of(d) is Some,
            VoiceNote::known(tag_of(d)->Some_0),
        ensures
            Self::parse(d, at) == VoiceNote::parse(d, at),
    {
        reveal(<Response as Wire>::parse);
        Self::routes_to_voice_note(tag_of(d)->Some_0);
    }

    /// A discriminator of `Contact` belongs to the arm `Contact`.
    pub proof fn routes_to_contact(t: Seq<char>)
        requires
            Contact::known(t),
        ensures
            Self::route(t) == 33,
    {
        reveal_strlit("contact");
        assert("contact"@.len() == 7);
        Self::tags_spelled_7();
    }

    /// A document whose discriminator belongs to `Contact` decodes through the envelope exactly as
    /// it decodes through `Contact` itself.
    pub proof fn agrees_with_contact(d: Doc, at: Seq<char>)
        requires
            tag_of(d) is Some,
            Contact::known(tag_of(d)->Some_0),
        ensures
            Self::parse(d, at) == Contact::parse(d, at),
    {
        reveal(<Response as Wire>::parse);
        Self::routes_to_contact(tag_of(d)->Some_0);
    }

    /// A discriminator of `Location` belongs to the arm `Location`.
    pub proof fn routes_to_location(t: Seq<char>)
        requires
            Location::known(t),
        ensures
            Self::route(t) == 34,
    {
        reveal_strlit("location");
        assert("location"@.len() == 8);
        Self::tags_spelled_8();
    }

    /// A document whose discriminator belongs to `Location` decodes through the envelope exactly as
    /// it decodes through `Location` itself.
    pub proof fn agrees_with_location(d: Doc, at: Seq<char>)
        requires
            tag_of(d) is Some,
            Location::known(tag_of(d)->Some_0),
        ensures
            Self::parse(d, at) == Location::parse(d, at),
    {
        reveal(<Response as Wire>::parse);
        Self::routes_to_location(tag_of(d)->Some_0);
    }

    /// A discriminator of `Venue` belongs to the arm `Venue`.
    pub proof fn routes_to_venue(t: Seq<char>)
        requires
            Venue::known(t),
        ensures
            Self::route(t) == 35,
    {
        reveal_strlit("venue");
        assert("venue"@.len() == 5);
        Self::tags_spelled_5();
    }

    /// A document whose discriminator belongs to `Venue` decodes through the envelope exactly as it
    /// decodes through `Venue` itself.
    pub proof fn agrees_with_venue(d: Doc, at: Seq<char>)
        requires
            tag_of(d) is Some,
            Venue::known(tag_of(d)->Some_0),
        ensures
            Self::parse(d, at) == Venue::parse(d, at),
    {
        reveal(<Response as Wire>::parse);
        Self::routes_to_venue(tag_of(d)->Some_0);
    }

    /// A discriminator of `Game` belongs to the arm `Game`.
    pub proof fn routes_to_game(t: Seq<char>)
        requires
            Game::known(t),
        ensures
            Self::route(t) == 36,
    {
        reveal_strlit("game");
        assert("game"@.len() == 4);
        Self::tags_spelled_4();
    }

    /// A document whose discriminator belongs to `Game` decodes through the envelope exactly as it
    /// decodes through `Game` itself.
    pub proof fn agrees_with_game(d: Doc, at: Seq<char>)
        requires
            tag_of(d) is Some,
            Game::known(tag_of(d)->Some_0),
        ensures
            Self::parse(d, at) == Game::parse(d, at),
    {
        reveal(<Response as Wire>::parse);
        Self::routes_to_game(tag_of(d)->Some_0);
    }

    /// A discriminator of `Poll` belongs to the arm `Poll`.
    pub proof fn routes_to_poll(t: Seq<char>)
        requires
            Poll::known(t),
        ensures
            Self::route(t) == 37,
    {
        reveal_strlit("poll");
        assert("poll"@.len() == 4);
        Self::tags_spelled_4();
    }

    /// A document whose discriminator belongs to `Poll` decodes through the envelope exactly as it
    /// decodes through `Poll` itself.
    pub proof fn agrees_with_poll(d: Doc, at: Seq<char>)
        requires
            tag_of(d) is Some,
            Poll::known(tag_of(d)->Some_0),
        ensures
            Self::parse(d, at) == Poll::parse(d, at),
    {
        reveal(<Response as Wire>::parse);
        Self::routes_to_poll(tag_of(d)->Some_0);
    }

    /// A discriminator of `ProfilePhoto` belongs to the arm `ProfilePhoto`.
    pub proof fn routes_to_profile_photo(t: Seq<char>)
        requires
            ProfilePhoto::known(t),
        ensures
            Self::route(t) == 38,
    {
        reveal_strlit("profilePhoto");
        assert("profilePhoto"@.len() == 12);
        Self::tags_spelled_12();
    }

    /// A document whose discriminator belongs to `ProfilePhoto` decodes through the envelope
    /// exactly as it decodes through `ProfilePhoto` itself.
    pub proof fn agrees_with_profile_photo(d: Doc, at: Seq<char>)
        requires
            tag_of(d) is Some,
            ProfilePhoto::known(tag_of(d)->Some_0),
        ensures
            Self::parse(d, at) == ProfilePhoto::parse(d, at),
    {
        reveal(<Response as Wire>::parse);
        Self::routes_to_profile_photo(tag_of(d)->Some_0);
    }

    /// A discriminator of `ChatPhoto` belongs to the arm `ChatPhoto`.
    pub proof fn routes_to_chat_photo(t: Seq<char>)
        requires
            ChatPhoto::known(t),
        ensures
            Self::route(t) == 39,
    {
        reveal_strlit("chatPhoto");
        assert("chatPhoto"@.len() == 9);
        Self::tags_spelled_9();
    }

    /// A document whose discriminator belongs to `ChatPhoto` decodes through the envelope exactly
    /// as it decodes through `ChatPhoto` itself.
    pub proof fn agrees_with_chat_photo(d: Doc, at: Seq<char>)
        requires
            tag_of(d) is Some,
            ChatPhoto::known(tag_of(d)->Some_0),
        ensures
            Self::parse(d, at) == ChatPhoto::parse(d, at),
    {
        reveal(<Response as Wire>::parse);
        Self::routes_to_chat_photo(tag_of(d)->Some_0);
    }

    /// A discriminator of `UserType` belongs to the arm `UserType`.
    pub proof fn routes_to_user_type(t: Seq<char>)
        requires
            UserType::known(t),
        ensures
            Self::route(t) == 40,
    {
        reveal_strlit("userTypeRegular");
        reveal_strlit("userTypeDeleted");
        reveal_strlit("userTypeBot");
        reveal_strlit("userTypeUnknown");
        assert("userTypeRegular"@.len() == 15);
        assert("userTypeDeleted"@.len() == 15);
        assert("userTypeBot"@.len() == 11);
        assert("userTypeUnknown"@.len() == 15);
        Self::tags_spelled_11();
        Self::tags_spelled_15();
    }

    /// A document whose discriminator belongs to `UserType` decodes through the envelope exactly as
    /// it decodes through `UserType` itself.
    pub proof fn agrees_with_user_type(d: Doc, at: Seq<char>)
        requires
            tag_of(d) is Some,
            UserType::known(tag_of(d)->Some_0),
        ensures
            Self::parse(d, at) == UserType::parse(d, at),
    {
        reveal(<Response as Wire>::parse);
        Self::routes_to_user_type(tag_of(d)->Some_0);
    }

    /// A discriminator of `BotCommand` belongs to the arm `BotCommand`.
    pub proof fn routes_to_bot_command(t: Seq<char>)
        requires
            BotCommand::known(t),
        ensures
            Self::route(t) == 41,
    {
        reveal_strlit("botCommand");
        assert("botCommand"@.len() == 10);
        Self::tags_spelled_10();
    }

    /// A document whose discriminator belongs to `BotCommand` decodes through the envelope exactly
    /// as it decodes through `BotCommand` itself.
    pub proof fn agrees_with_bot_command(d: Doc, at: Seq<char>)
        requires
            tag_of(d) is Some,
            BotCommand::known(tag_of(d)->Some_0),
        ensures
            Self::parse(d, at) == BotCommand::parse(d, at),
    {
        reveal(<Response as Wire>::parse);
        Self::routes_to_bot_command(tag_of(d)->Some_0);
    }

    /// A discriminator of `BotInfo` belongs to the arm `BotInfo`.
    pub proof fn routes_to_bot_info(t: Seq<char>)
        requires
            BotInfo::known(t),
        ensures
            Self::route(t) == 42,
    {
        reveal_strlit("botInfo");
        assert("botInfo"@.len() == 7);
        Self::tags_spelled_7();
    }

    /// A document whose discriminator belongs to `BotInfo` decodes through the envelope exactly as
    /// it decodes through `BotInfo` itself.
    pub proof fn agrees_with_bot_info(d: Doc, at: Seq<char>)
        requires
            tag_of(d) is Some,
            BotInfo::known(tag_of(d)->Some_0),
        ensures
            Self::parse(d, at) == BotInfo::parse(d, at),
    {
        reveal(<Response as Wire>::parse);
        Self::routes_to_bot_info(tag_of(d)->Some_0);
    }

    /// A discriminator of `ChatLocation` belongs to the arm `ChatLocation`.
    pub proof fn routes_to_chat_location(t: Seq<char>)
        requires
            ChatLocation::known(t),
        ensures
            Self::route(t) == 43,
    {
        reveal_strlit("chatLocation");
        assert("chatLocation"@.len() == 12);
        Self::tags_spelled_12();
    }

    /// A document whose discriminator belongs to `ChatLocation` decodes through the envelope
    /// exactly as it decodes through `ChatLocation` itself.
    pub proof fn agrees_with_chat_location(d: Doc, at: Seq<char>)
        requires
            tag_of(d) is Some,
            ChatLocation::known(tag_of(d)->Some_0),
        ensures
            Self::parse(d, at) == ChatLocation::parse(d, at),
    {
        reveal(<Response as Wire>::parse);
        Self::routes_to_chat_location(tag_of(d)->Some_0);
    }

    /// A discriminator of `User` belongs to the arm `User`.
    pub proof fn routes_to_user(t: Seq<char>)
        requires
            User::known(t),
        ensures
            Self::route(t) == 44,
    {
        reveal_strlit("user");
        assert("user"@.len() == 4);
        Self::tags_spelled_4();
    }

    /// A document whose discriminator belongs to `User` decodes through the envelope exactly as it
    /// decodes through `User` itself.
    pub proof fn agrees_with_user(d: Doc, at: Seq<char>)
        requires
            tag_of(d) is Some,
            User::known(tag_of(d)->Some_0),
        ensures
            Self::parse(d, at) == User::parse(d, at),
    {
        reveal(<Response as Wire>::parse);
        Self::routes_to_user(tag_of(d)->Some_0);
    }

    /// A discriminator of `UserFullInfo` belongs to the arm `UserFullInfo`.
    pub proof fn routes_to_user_full_info(t: Seq<char>)
        requires
            UserFullInfo::known(t),
        ensures
            Self::route(t) == 45,
    {
        reveal_strlit("userFullInfo");
        assert("userFullInfo"@.len() == 12);
        Self::tags_spelled_12();
    }

    /// A document whose discriminator belongs to `UserFullInfo` decodes through the envelope
    /// exactly as it decodes through `UserFullInfo` itself.
    pub proof fn agrees_with_user_full_info(d: Doc, at: Seq<char>)
        requires
            tag_of(d) is Some,
            UserFullInfo::known(tag_of(d)->Some_0),
        ensures
            Self::parse(d, at) == UserFullInfo::parse(d, at),
    {
        reveal(<Response as Wire>::parse);
        Self::routes_to_user_full_info(tag_of(d)->Some_0);
    }

    /// A discriminator of `UserProfilePhoto` belongs to the arm `UserProfilePhoto`.
    pub proof fn routes_to_user_profile_photo(t: Seq<char>)
        requires
            UserProfilePhoto::known(t),
        ensures
            Self::route(t) == 46,
    {
        reveal_strlit("userProfilePhoto");
        assert("userProfilePhoto"@.len() == 16);
        Self::tags_spelled_16();
    }

    /// A document whose discriminator belongs to `UserProfilePhoto` decodes through the envelope
    /// exactly as it decodes through `UserProfilePhoto` itself.
    pub proof fn agrees_with_user_profile_photo(d: Doc, at: Seq<char>)
        requires
            tag_of(d) is Some,
            UserProfilePhoto::known(tag_of(d)->Some_0),
        ensures
            Self::parse(d, at) == UserProfilePhoto::parse(d, at),
    {
        reveal(<Response as Wire>::parse);
        Self::routes_to_user_profile_photo(tag_of(d)->Some_0);
    }

    /// A discriminator of `UserProfilePhotos` belongs to the arm `UserProfilePhotos`.
    pub proof fn routes_to_user_profile_photos(t: Seq<char>)
        requires
            UserProfilePhotos::known(t),
        ensures
            Self::route(t) == 47,
    {
        reveal_strlit("userProfilePhotos");
        assert("userProfilePhotos"@.len() == 17);
        Self::tags_spelled_17();
    }

    /// A document whose discriminator belongs to `UserProfilePhotos` decodes through the envelope
    /// exactly as it decodes through `UserProfilePhotos` itself.
    pub proof fn agrees_with_user_profile_photos(d: Doc, at: Seq<char>)
        requires
            tag_of(d) is Some,
            UserProfilePhotos::known(tag_of(d)->Some_0),
        ensures
            Self::parse(d, at) == UserProfilePhotos::parse(d, at),
    {
        reveal(<Response as Wire>::parse);
        Self::routes_to_user_profile_photos(tag_of(d)->Some_0);
    }

    /// A discriminator of `Users` belongs to the arm `Users`.
    pub proof fn routes_to_users(t: Seq<char>)
        requires
            Users::known(t),
        ensures
            Self::route(t) == 48,
    {
        reveal_strlit("users");
        assert("users"@.len() == 5);
        Self::tags_spelled_5();
    }

    /// A document whose discriminator belongs to `Users` decodes through the envelope exactly as it
    /// decodes through `Users` itself.
    pub proof fn agrees_with_users(d: Doc, at: Seq<char>)
        requires
            tag_of(d) is Some,
            Users::known(tag_of(d)->Some_0),
        ensures
            Self::parse(d, at) == Users::parse(d, at),
    {
        reveal(<Response as Wire>::parse);
        Self::routes_to_users(tag_of(d)->Some_0);
    }

    /// A discriminator of `ChatAdministrator` belongs to the arm `ChatAdministrator`.
    pub proof fn routes_to_chat_administrator(t: Seq<char>)
        requires
            ChatAdministrator::known(t),
        ensures
            Self::route(t) == 49,
    {
        reveal_strlit("chatAdministrator");
        assert("chatAdministrator"@.len() == 17);
        Self::tags_spelled_17();
    }

    /// A document whose discriminator belongs to `ChatAdministrator` decodes through the envelope
    /// exactly as it decodes through `ChatAdministrator` itself.
    pub proof fn agrees_with_chat_administrator(d: Doc, at: Seq<char>)
        requires
            tag_of(d) is Some,
            ChatAdministrator::known(tag_of(d)->Some_0),
        ensures
            Self::parse(d, at) == ChatAdministrator::parse(d, at),
    {
        reveal(<Response as Wire>::parse);
        Self::routes_to_chat_administrator(tag_of(d)->Some_0);
    }

    /// A discriminator of `ChatAdministrators` belongs to the arm `ChatAdministrators`.
    pub proof fn routes_to_chat_administrators(t: Seq<char>)
        requires
            ChatAdministrators::known(t),
        ensures
            Self::route(t) == 50,
    {
        reveal_strlit("chatAdministrators");
        assert("chatAdministrators"@.len() == 18);
        Self::tags_spelled_18();
    }

    /// A document whose discriminator belongs to `ChatAdministrators` decodes through the envelope
    /// exactly as it decodes through `ChatAdministrators` itself.
    pub proof fn agrees_with_chat_administrators(d: Doc, at: Seq<char>)
        requires
            tag_of(d) is Some,
            ChatAdministrators::known(tag_of(d)->Some_0),
        ensures
            Self::parse(d, at) == ChatAdministrators::parse(d, at),
    {
        reveal(<Response as Wire>::parse);
        Self::routes_to_chat_administrators(tag_of(d)->Some_0);
    }

    /// A discriminator of `ChatPermissions` belongs to the arm `ChatPermissions`.
    pub proof fn routes_to_chat_permissions(t: Seq<char>)
        requires
            ChatPermissions::known(t),
        ensures
            Self::route(t) == 51,
    {
        reveal_strlit("chatPermissions");
        assert("chatPermissions"@.len() == 15);
        Self::tags_spelled_15();
    }

    /// A document whose discriminator belongs to `ChatPermissions` decodes through the envelope
    /// exactly as it decodes through `ChatPermissions` itself.
    pub proof fn agrees_with_chat_permissions(d: Doc, at: Seq<char>)
        requires
            tag_of(d) is Some,
            ChatPermissions::known(tag_of(d)->Some_0),
        ensures
            Self::parse(d, at) == ChatPermissions::parse(d, at),
    {
        reveal(<Response as Wire>::parse);
        Self::routes_to_chat_permissions(tag_of(d)->Some_0);
    }

    /// A discriminator of `ChatMemberStatus` belongs to the arm `ChatMemberStatus`.
    pub proof fn routes_to_chat_member_status(t: Seq<char>)
        requires
            ChatMemberStatus::known(t),
        ensures
            Self::route(t) == 52,
    {
        reveal_strlit("chatMemberStatusCreator");
        reveal_strlit("chatMemberStatusAdministrator");
        reveal_strlit("chatMemberStatusMember");
        reveal_strlit("chatMemberStatusRestricted");
        reveal_strlit("chatMemberStatusLeft");
        reveal_strlit("chatMemberStatusBanned");
        assert("chatMemberStatusCreator"@.len() == 23);
        assert("chatMemberStatusAdministrator"@.len() == 29);
        assert("chatMemberStatusMember"@.len() == 22);
        assert("chatMemberStatusRestricted"@.len() == 26);
        assert("chatMemberStatusLeft"@.len() == 20);
        assert("chatMemberStatusBanned"@.len() == 22);
        Self::tags_spelled_20();
        Self::tags_spelled_22();
        Self::tags_spelled_23();
        Self::tags_spelled_26();
        Self::tags_spelled_29();
    }

    /// A document whose discriminator belongs to `ChatMemberStatus` decodes through the envelope
    /// exactly as it decodes through `ChatMemberStatus` itself.
    pub proof fn agrees_with_chat_member_status(d: Doc, at: Seq<char>)
        requires
            tag_of(d) is Some,
            ChatMemberStatus::known(tag_of(d)->Some_0),
        ensures
            Self::parse(d, at) == ChatMemberStatus::parse(d, at),
    {
        reveal(<Response as Wire>::parse);
        Self::routes_to_chat_member_status(tag_of(d)->Some_0);
    }

    /// A discriminator of `ChatMember` belongs to the arm `ChatMember`.
    pub proof fn routes_to_chat_member(t: Seq<char>)
        requires
            ChatMember::known(t),
        ensures
            Self::route(t) == 53,
    {
        reveal_strlit("chatMember");
        assert("chatMember"@.len() == 10);
        Self::tags_spelled_10();
    }

    /// A document whose discriminator belongs to `ChatMember` decodes through the envelope exactly
    /// as it decodes through `ChatMember` itself.
    pub proof fn agrees_with_chat_member(d: Doc, at: Seq<char>)
        requires
            tag_of(d) is Some,
            ChatMember::known(tag_of(d)->Some_0),
        ensures
            Self::parse(d, at) == ChatMember::parse(d, at),
    {
        reveal(<Response as Wire>::parse);
        Self::routes_to_chat_member(tag_of(d)->Some_0);
    }

    /// A discriminator of `ChatMembers` belongs to the arm `ChatMembers`.
    pub proof fn routes_to_chat_members(t: Seq<char>)
        requires
            ChatMembers::known(t),
        ensures
            Self::route(t) == 54,
    {
        reveal_strlit("chatMembers");
        assert("chatMembers"@.len() == 11);
        Self::tags_spelled_11();
    }

    /// A document whose discriminator belongs to `ChatMembers` decodes through the envelope exactly
    /// as it decodes through `ChatMembers` itself.
    pub proof fn agrees_with_chat_members(d: Doc, at: Seq<char>)
        requires
            tag_of(d) is Some,
            ChatMembers::known(tag_of(d)->Some_0),
        ensures
            Self::parse(d, at) == ChatMembers::parse(d, at),
    {
        reveal(<Response as Wire>::parse);
        Self::routes_to_chat_members(tag_of(d)->Some_0);
    }

    /// A discriminator of `ChatMembersFilter` belongs to the arm `ChatMembersFilter`.
    pub proof fn routes_to_chat_members_filter(t: Seq<char>)
        requires
            ChatMembersFilter::known(t),
        ensures
            Self::route(t) == 55,
    {
        reveal_strlit("chatMembersFilterContacts");
        reveal_strlit("chatMembersFilterAdministrators");
        reveal_strlit("chatMembersFilterMembers");
        reveal_strlit("chatMembersFilterRestricted");
        reveal_strlit("chatMembersFilterBanned");
        reveal_strlit("chatMembersFilterBots");
        assert("chatMembersFilterContacts"@.len() == 25);
        assert("chatMembersFilterAdministrators"@.len() == 31);
        assert("chatMembersFilterMembers"@.len() == 24);
        assert("chatMembersFilterRestricted"@.len() == 27);
        assert("chatMembersFilterBanned"@.len() == 23);
        assert("chatMembersFilterBots"@.len() == 21);
        Self::tags_spelled_21();
        Self::tags_spelled_23();
        Self::tags_spelled_24();
        Self::tags_spelled_25();
        Self::tags_spelled_27();
        Self::tags_spelled_31();
    }

    /// A document whose discriminator belongs to `ChatMembersFilter` decodes through the envelope
    /// exactly as it decodes through `ChatMembersFilter` itself.
    pub proof fn agrees_with_chat_members_filter(d: Doc, at: Seq<char>)
        requires
            tag_of(d) is Some,
            ChatMembersFilter::known(tag_of(d)->Some_0),
        ensures
            Self::parse(d, at) == ChatMembersFilter::parse(d, at),
    {
        reveal(<Response as Wire>::parse);
        Self::routes_to_chat_members_filter(tag_of(d)->Some_0);
    }

    /// A discriminator of `SupergroupMembersFilter` belongs to the arm `SupergroupMembersFilter`.
    pub proof fn routes_to_supergroup_members_filter(t: Seq<char>)
        requires
            SupergroupMembersFilter::known(t),
        ensures
            Self::route(t) == 56,
    {
        reveal_strlit("supergroupMembersFilterRecent");
        reveal_strlit("supergroupMembersFilterContacts");
        reveal_strlit("supergroupMembersFilterAdministrators");
        reveal_strlit("supergroupMembersFilterSearch");
        reveal_strlit("supergroupMembersFilterRestricted");
        reveal_strlit("supergroupMembersFilterBanned");
        reveal_strlit("supergroupMembersFilterBots");
        assert("supergroupMembersFilterRecent"@.len() == 29);
        assert("supergroupMembersFilterContacts"@.len() == 31);
        assert("supergroupMembersFilterAdministrators"@.len() == 37);
        assert("supergroupMembersFilterSearch"@.len() == 29);
        assert("supergroupMembersFilterRestricted"@.len() == 33);
        assert("supergroupMembersFilterBanned"@.len() == 29);
        assert("supergroupMembersFilterBots"@.len() == 27);
        Self::tags_spelled_27();
        Self::tags_spelled_29();
        Self::tags_spelled_31();
        Self::tags_spelled_33();
        Self::tags_spelled_37();
    }

    /// A document whose discriminator belongs to `SupergroupMembersFilter` decodes through the
    /// envelope exactly as it decodes through `SupergroupMembersFilter` itself.
    pub proof fn agrees_with_supergroup_members_filter(d: Doc, at: Seq<char>)
        requires
            tag_of(d) is Some,
            SupergroupMembersFilter::known(tag_of(d)->Some_0),
        ensures
            Self::parse(d, at) == SupergroupMembersFilter::parse(d, at),
    {
        reveal(<Response as Wire>::parse);
        Self::routes_to_supergroup_members_filter(tag_of(d)->Some_0);
    }

    /// A discriminator of `BasicGroup` belongs to the arm `BasicGroup`.
    pub proof fn routes_to_basic_group(t: Seq<char>)
        requires
            BasicGroup::known(t),
        ensures
            Self::route(t) == 57,
    {
        reveal_strlit("basicGroup");
        assert("basicGroup"@.len() == 10);
        Self::tags_spelled_10();
    }

    /// A document whose discriminator belongs to `BasicGroup` decodes through the envelope exactly
    /// as it decodes through `BasicGroup` itself.
    pub proof fn agrees_with_basic_group(d: Doc, at: Seq<char>)
        requires
            tag_of(d) is Some,
            BasicGroup::known(tag_of(d)->Some_0),
        ensures
            Self::parse(d, at) == BasicGroup::parse(d, at),
    {
        reveal(<Response as Wire>::parse);
        Self::routes_to_basic_group(tag_of(d)->Some_0);
    }

    /// A discriminator of `BasicGroupFullInfo` belongs to the arm `BasicGroupFullInfo`.
    pub proof fn routes_to_basic_group_full_info(t: Seq<char>)
        requires
            BasicGroupFullInfo::known(t),
        ensures
            Self::route(t) == 58,
    {
        reveal_strlit("basicGroupFullInfo");
        assert("basicGroupFullInfo"@.len() == 18);
        Self::tags_spelled_18();
    }

    /// A document whose discriminator belongs to `BasicGroupFullInfo` decodes through the envelope
    /// exactly as it decodes through `BasicGroupFullInfo` itself.
    pub proof fn agrees_with_basic_group_full_info(d: Doc, at: Seq<char>)
        requires
            tag_of(d) is Some,
            BasicGroupFullInfo::known(tag_of(d)->Some_0),
        ensures
            Self::parse(d, at) == BasicGroupFullInfo::parse(d, at),
    {
        reveal(<Response as Wire>::parse);
        Self::routes_to_basic_group_full_info(tag_of(d)->Some_0);
    }

    /// A discriminator of `Supergroup` belongs to the arm `Supergroup`.
    pub proof fn routes_to_supergroup(t: Seq<char>)
        requires
            Supergroup::known(t),
        ensures
            Self::route(t) == 59,
    {
        reveal_strlit("supergroup");
        assert("supergroup"@.len() == 10);
        Self::tags_spelled_10();
    }

    /// A document whose discriminator belongs to `Supergroup` decodes through the envelope exactly
    /// as it decodes through `Supergroup` itself.
    pub proof fn agrees_with_supergroup(d: Doc, at: Seq<char>)
        requires
            tag_of(d) is Some,
            Supergroup::known(tag_of(d)->Some_0),
        ensures
            Self::parse(d, at) == Supergroup::parse(d, at),
    {
        reveal(<Response as Wire>::parse);
        Self::routes_to_supergroup(tag_of(d)->Some_0);
    }

    /// A discriminator of `SupergroupFullInfo` belongs to the arm `SupergroupFullInfo`.
    pub proof fn routes_to_supergroup_full_info(t: Seq<char>)
        requires
            SupergroupFullInfo::known(t),
        ensures
            Self::route(t) == 60,
    {
        reveal_strlit("supergroupFullInfo");
        assert("supergroupFullInfo"@.len() == 18);
        Self::tags_spelled_18();
    }

    /// A document whose discriminator belongs to `SupergroupFullInfo` decodes through the envelope
    /// exactly as it decodes through `SupergroupFullInfo` itself.
    pub proof fn agrees_with_supergroup_full_info(d: Doc, at: Seq<char>)
        requires
            tag_of(d) is Some,
            SupergroupFullInfo::known(tag_of(d)->Some_0),
        ensures
            Self::parse(d, at) == SupergroupFullInfo::parse(d, at),
    {
        reveal(<Response as Wire>::parse);
        Self::routes_to_supergroup_full_info(tag_of(d)->Some_0);
    }

    /// A discriminator of `SecretChatState` belongs to the arm `SecretChatState`.
    pub proof fn routes_to_secret_chat_state(t: Seq<char>)
        requires
            SecretChatState::known(t),
        ensures
            Self::route(t) == 61,
    {
        reveal_strlit("secretChatStatePending");
        reveal_strlit("secretChatStateReady");
        reveal_strlit("secretChatStateClosed");
        assert("secretChatStatePending"@.len() == 22);
        assert("secretChatStateReady"@.len() == 20);
        assert("secretChatStateClosed"@.len() == 21);
        Self::tags_spelled_20();
        Self::tags_spelled_21();
        Self::tags_spelled_22();
    }

    /// A document whose discriminator belongs to `SecretChatState` decodes through the envelope
    /// exactly as it decodes through `SecretChatState` itself.
    pub proof fn agrees_with_secret_chat_state(d: Doc, at: Seq<char>)
        requires
            tag_of(d) is Some,
            SecretChatState::known(tag_of(d)->Some_0),
        ensures
            Self::parse(d, at) == SecretChatState::parse(d, at),
    {
        reveal(<Response as Wire>::parse);
        Self::routes_to_secret_chat_state(tag_of(d)->Some_0);
    }

    /// A discriminator of `SecretChat` belongs to the arm `SecretChat`.
    pub proof fn routes_to_secret_chat(t: Seq<char>)
        requires
            SecretChat::known(t),
        ensures
            Self::route(t) == 62,
    {
        reveal_strlit("secretChat");
        assert("secretChat"@.len() == 10);
        Self::tags_spelled_10();
    }

    /// A document whose discriminator belongs to `SecretChat` decodes through the envelope exactly
    /// as it decodes through `SecretChat` itself.
    pub proof fn agrees_with_secret_chat(d: Doc, at: Seq<char>)
        requires
            tag_of(d) is Some,
            SecretChat::known(tag_of(d)->Some_0),
        ensures
            Self::parse(d, at) == SecretChat::parse(d, at),
    {
        reveal(<Response as Wire>::parse);
        Self::routes_to_secret_chat(tag_of(d)->Some_0);
    }

    /// A discriminator of `MessageForwardOrigin` belongs to the arm `MessageForwardOrigin`.
    pub proof fn routes_to_message_forward_origin(t: Seq<char>)
        requires
            MessageForwardOrigin::known(t),
        ensures
            Self::route(t) == 63,
    {
        reveal_strlit("messageForwardOriginUser");
        reveal_strlit("messageForwardOriginHiddenUser");
        reveal_strlit("messageForwardOriginChannel");
        assert("messageForwardOriginUser"@.len() == 24);
        assert("messageForwardOriginHiddenUser"@.len() == 30);
        assert("messageForwardOriginChannel"@.len() == 27);
        Self::tags_spelled_24();
        Self::tags_spelled_27();
        Self::tags_spelled_30();
    }

    /// A document whose discriminator belongs to `MessageForwardOrigin` decodes through the
    /// envelope exactly as it decodes through `MessageForwardOrigin` itself.
    pub proof fn agrees_with_message_forward_origin(d: Doc, at: Seq<char>)
        requires
            tag_of(d) is Some,
            MessageForwardOrigin::known(tag_of(d)->Some_0),
        ensures
            Self::parse(d, at) == MessageForwardOrigin::parse(d, at),
    {
        reveal(<Response as Wire>::parse);
        Self::routes_to_message_forward_origin(tag_of(d)->Some_0);
    }

    /// A discriminator of `MessageForwardInfo` belongs to the arm `MessageForwardInfo`.
    pub proof fn routes_to_message_forward_info(t: Seq<char>)
        requires
            MessageForwardInfo::known(t),
        ensures
            Self::route(t) == 64,
    {
        reveal_strlit("messageForwardInfo");
        assert("messageForwardInfo"@.len() == 18);
        Self::tags_spelled_18();
    }

    /// A document whose discriminator belongs to `MessageForwardInfo` decodes through the envelope
    /// exactly as it decodes through `MessageForwardInfo` itself.
    pub proof fn agrees_with_message_forward_info(d: Doc, at: Seq<char>)
        requires
            tag_of(d) is Some,
            MessageForwardInfo::known(tag_of(d)->Some_0),
        ensures
            Self::parse(d, at) == MessageForwardInfo::parse(d, at),
    {
        reveal(<Response as Wire>::parse);
        Self::routes_to_message_forward_info(tag_of(d)->Some_0);
    }

    /// A discriminator of `MessageSendingState` belongs to the arm `MessageSendingState`.
    pub proof fn routes_to_message_sending_state(t: Seq<char>)
        requires
            MessageSendingState::known(t),
        ensures
            Self::route(t) == 65,
    {
        reveal_strlit("messageSendingStatePending");
        reveal_strlit("messageSendingStateFailed");
        assert("messageSendingStatePending"@.len() == 26);
        assert("messageSendingStateFailed"@.len() == 25);
        Self::tags_spelled_25();
        Self::tags_spelled_26();
    }

    /// A document whose discriminator belongs to `MessageSendingState` decodes through the envelope
    /// exactly as it decodes through `MessageSendingState` itself.
    pub proof fn agrees_with_message_sending_state(d: Doc, at: Seq<char>)
        requires
            tag_of(d) is Some,
            MessageSendingState::known(tag_of(d)->Some_0),
        ensures
            Self::parse(d, at) == MessageSendingState::parse(d, at),
    {
        reveal(<Response as Wire>::parse);
        Self::routes_to_message_sending_state(tag_of(d)->Some_0);
    }

    /// A discriminator of `Message` belongs to the arm `Message`.
    pub proof fn routes_to_message(t: Seq<char>)
        requires
            Message::known(t),
        ensures
            Self::route(t) == 66,
    {
        reveal_strlit("message");
        assert("message"@.len() == 7);
        Self::tags_spelled_7();
    }

    /// A document whose discriminator belongs to `Message` decodes through the envelope exactly as
    /// it decodes through `Message` itself.
    pub proof fn agrees_with_message(d: Doc, at: Seq<char>)
        requires
            tag_of(d) is Some,
            Message::known(tag_of(d)->Some_0),
        ensures
            Self::parse(d, at) == Message::parse(d, at),
    {
        reveal(<Response as Wire>::parse);
        Self::routes_to_message(tag_of(d)->Some_0);
    }

    /// A discriminator of `Messages` belongs to the arm `Messages`.
    pub proof fn routes_to_messages(t: Seq<char>)
        requires
            Messages::known(t),
        ensures
            Self::route(t) == 67,
    {
        reveal_strlit("messages");
        assert("messages"@.len() == 8);
        Self::tags_spelled_8();
    }

    /// A document whose discriminator belongs to `Messages` decodes through the envelope exactly as
    /// it decodes through `Messages` itself.
    pub proof fn agrees_with_messages(d: Doc, at: Seq<char>)
        requires
            tag_of(d) is Some,
            Messages::known(tag_of(d)->Some_0),
        ensures
            Self::parse(d, at) == Messages::parse(d, at),
    {
        reveal(<Response as Wire>::parse);
        Self::routes_to_messages(tag_of(d)->Some_0);
    }

    /// A discriminator of `FoundMessages` belongs to the arm `FoundMessages`.
    pub proof fn routes_to_found_messages(t: Seq<char>)
        requires
            FoundMessages::known(t),
        ensures
            Self::route(t) == 68,
    {
        reveal_strlit("foundMessages");
        assert("foundMessages"@.len() == 13);
        Self::tags_spelled_13();
    }

    /// A document whose discriminator belongs to `FoundMessages` decodes through the envelope
    /// exactly as it decodes through `FoundMessages` itself.
    pub proof fn agrees_with_found_messages(d: Doc, at: Seq<char>)
        requires
            tag_of(d) is Some,
            FoundMessages::known(tag_of(d)->Some_0),
        ensures
            Self::parse(d, at) == FoundMessages::parse(d, at),
    {
        reveal(<Response as Wire>::parse);
        Self::routes_to_found_messages(tag_of(d)->Some_0);
    }

    /// A discriminator of `NotificationSettingsScope` belongs to the arm `NotificationSettingsScope`.
    pub proof fn routes_to_notification_settings_scope(t: Seq<char>)
        requires
            NotificationSettingsScope::known(t),
        ensures
            Self::route(t) == 69,
    {
        reveal_strlit("notificationSettingsScopePrivateChats");
        reveal_strlit("notificationSettingsScopeGroupChats");
        reveal_strlit("notificationSettingsScopeChannelChats");
        assert("notificationSettingsScopePrivateChats"@.len() == 37);
        assert("notificationSettingsScopeGroupChats"@.len() == 35);
        assert("notificationSettingsScopeChannelChats"@.len() == 37);
        Self::tags_spelled_35();
        Self::tags_spelled_37();
    }

    /// A document whose discriminator belongs to `NotificationSettingsScope` decodes through the
    /// envelope exactly as it decodes through `NotificationSettingsScope` itself.
    pub proof fn agrees_with_notification_settings_scope(d: Doc, at: Seq<char>)
        requires
            tag_of(d) is Some,
            NotificationSettingsScope::known(tag_of(d)->Some_0),
        ensures
            Self::parse(d, at) == NotificationSettingsScope::parse(d, at),
    {
        reveal(<Response as Wire>::parse);
        Self::routes_to_notification_settings_scope(tag_of(d)->Some_0);
    }

    /// A discriminator of `ChatNotificationSettings` belongs to the arm `ChatNotificationSettings`.
    pub proof fn routes_to_chat_notification_settings(t: Seq<char>)
        requires
            ChatNotificationSettings::known(t),
        ensures
            Self::route(t) == 70,
    {
        reveal_strlit("chatNotificationSettings");
        assert("chatNotificationSettings"@.len() == 24);
        Self::tags_spelled_24();
    }

    /// A document whose discriminator belongs to `ChatNotificationSettings` decodes through the
    /// envelope exactly as it decodes through `ChatNotificationSettings` itself.
    pub proof fn agrees_with_chat_notification_settings(d: Doc, at: Seq<char>)
        requires
            tag_of(d) is Some,
            ChatNotificationSettings::known(tag_of(d)->Some_0),
        ensures
            Self::parse(d, at) == ChatNotificationSettings::parse(d, at),
    {
        reveal(<Response as Wire>::parse);
        Self::routes_to_chat_notification_settings(tag_of(d)->Some_0);
    }

    /// A discriminator of `ScopeNotificationSettings` belongs to the arm `ScopeNotificationSettings`.
    pub proof fn routes_to_scope_notification_settings(t: Seq<char>)
        requires
            ScopeNotificationSettings::known(t),
        ensures
            Self::route(t) == 71,
    {
        reveal_strlit("scopeNotificationSettings");
        assert("scopeNotificationSettings"@.len() == 25);
        Self::tags_spelled_25();
    }

    /// A document whose discriminator belongs to `ScopeNotificationSettings` decodes through the
    /// envelope exactly as it decodes through `ScopeNotificationSettings` itself.
    pub proof fn agrees_with_scope_notification_settings(d: Doc, at: Seq<char>)
        requires
            tag_of(d) is Some,
            ScopeNotificationSettings::known(tag_of(d)->Some_0),
        ensures
            Self::parse(d, at) == ScopeNotificationSettings::parse(d, at),
    {
        reveal(<Response as Wire>::parse);
        Self::routes_to_scope_notification_settings(tag_of(d)->Some_0);
    }

    /// A discriminator of `DraftMessage` belongs to the arm `DraftMessage`.
    pub proof fn routes_to_draft_message(t: Seq<char>)
        requires
            DraftMessage::known(t),
        ensures
            Self::route(t) == 72,
    {
        reveal_strlit("draftMessage");
        assert("draftMessage"@.len() == 12);
        Self::tags_spelled_12();
    }

    /// A document whose discriminator belongs to `DraftMessage` decodes through the envelope
    /// exactly as it decodes through `DraftMessage` itself.
    pub proof fn agrees_with_draft_message(d: Doc, at: Seq<char>)
        requires
            tag_of(d) is Some,
            DraftMessage::known(tag_of(d)->Some_0),
        ensures
            Self::parse(d, at) == DraftMessage::parse(d, at),
    {
        reveal(<Response as Wire>::parse);
        Self::routes_to_draft_message(tag_of(d)->Some_0);
    }

    /// A discriminator of `ChatType` belongs to the arm `ChatType`.
    pub proof fn routes_to_chat_type(t: Seq<char>)
        requires
            ChatType::known(t),
        ensures
            Self::route(t) == 73,
    {
        reveal_strlit("chatTypePrivate");
        reveal_strlit("chatTypeBasicGroup");
        reveal_strlit("chatTypeSupergroup");
        reveal_strlit("chatTypeSecret");
        assert("chatTypePrivate"@.len() == 15);
        assert("chatTypeBasicGroup"@.len() == 18);
        assert("chatTypeSupergroup"@.len() == 18);
        assert("chatTypeSecret"@.len() == 14);
        Self::tags_spelled_14();
        Self::tags_spelled_15();
        Self::tags_spelled_18();
    }

    /// A document whose discriminator belongs to `ChatType` decodes through the envelope exactly as
    /// it decodes through `ChatType` itself.
    pub proof fn agrees_with_chat_type(d: Doc, at: Seq<char>)
        requires
            tag_of(d) is Some,
            ChatType::known(tag_of(d)->Some_0),
        ensures
            Self::parse(d, at) == ChatType::parse(d, at),
    {
        reveal(<Response as Wire>::parse);
        Self::routes_to_chat_type(tag_of(d)->Some_0);
    }

    /// A discriminator of `ChatList` belongs to the arm `ChatList`.
    pub proof fn routes_to_chat_list(t: Seq<char>)
        requires
            ChatList::known(t),
        ensures
            Self::route(t) == 74,
    {
        reveal_strlit("chatListMain");
        reveal_strlit("chatListArchive");
        assert("chatListMain"@.len() == 12);
        assert("chatListArchive"@.len() == 15);
        Self::tags_spelled_12();
        Self::tags_spelled_15();
    }

    /// A document whose discriminator belongs to `ChatList` decodes through the envelope exactly as
    /// it decodes through `ChatList` itself.
    pub proof fn agrees_with_chat_list(d: Doc, at: Seq<char>)
        requires
            tag_of(d) is Some,
            ChatList::known(tag_of(d)->Some_0),
        ensures
            Self::parse(d, at) == ChatList::parse(d, at),
    {
        reveal(<Response as Wire>::parse);
        Self::routes_to_chat_list(tag_of(d)->Some_0);
    }

    /// A discriminator of `Chat` belongs to the arm `Chat`.
    pub proof fn routes_to_chat(t: Seq<char>)
        requires
            Chat::known(t),
        ensures
            Self::route(t) == 75,
    {
        reveal_strlit("chat");
        assert("chat"@.len() == 4);
        Self::tags_spelled_4();
    }

    /// A document whose discriminator belongs to `Chat` decodes through the envelope exactly as it
    /// decodes through `Chat` itself.
    pub proof fn agrees_with_chat(d: Doc, at: Seq<char>)
        requires
            tag_of(d) is Some,
            Chat::known(tag_of(d)->Some_0),
        ensures
            Self::parse(d, at) == Chat::parse(d, at),
    {
        reveal(<Response as Wire>::parse);
        Self::routes_to_chat(tag_of(d)->Some_0);
    }

    /// A discriminator of `Chats` belongs to the arm `Chats`.
    pub proof fn routes_to_chats(t: Seq<char>)
        requires
            Chats::known(t),
        ensures
            Self::route(t) == 76,
    {
        reveal_strlit("chats");
        assert("chats"@.len() == 5);
        Self::tags_spelled_5();
    }

    /// A document whose discriminator belongs to `Chats` decodes through the envelope exactly as it
    /// decodes through `Chats` itself.
    pub proof fn agrees_with_chats(d: Doc, at: Seq<char>)
        requires
            tag_of(d) is Some,
            Chats::known(tag_of(d)->Some_0),
        ensures
            Self::parse(d, at) == Chats::parse(d, at),
    {
        reveal(<Response as Wire>::parse);
        Self::routes_to_chats(tag_of(d)->Some_0);
    }

    /// A discriminator of `ChatNearby` belongs to the arm `ChatNearby`.
    pub proof fn routes_to_chat_nearby(t: Seq<char>)
        requires
            ChatNearby::known(t),
        ensures
            Self::route(t) == 77,
    {
        reveal_strlit("chatNearby");
        assert("chatNearby"@.len() == 10);
        Self::tags_spelled_10();
    }

    /// A document whose discriminator belongs to `ChatNearby` decodes through the envelope exactly
    /// as it decodes through `ChatNearby` itself.
    pub proof fn agrees_with_chat_nearby(d: Doc, at: Seq<char>)
        requires
            tag_of(d) is Some,
            ChatNearby::known(tag_of(d)->Some_0),
        ensures
            Self::parse(d, at) == ChatNearby::parse(d, at),
    {
        reveal(<Response as Wire>::parse);
        Self::routes_to_chat_nearby(tag_of(d)->Some_0);
    }

    /// A discriminator of `ChatsNearby` belongs to the arm `ChatsNearby`.
    pub proof fn routes_to_chats_nearby(t: Seq<char>)
        requires
            ChatsNearby::known(t),
        ensures
            Self::route(t) == 78,
    {
        reveal_strlit("chatsNearby");
        assert("chatsNearby"@.len() == 11);
        Self::tags_spelled_11();
    }

    /// A document whose discriminator belongs to `ChatsNearby` decodes through the envelope exactly
    /// as it decodes through `ChatsNearby` itself.
    pub proof fn agrees_with_chats_nearby(d: Doc, at: Seq<char>)
        requires
            tag_of(d) is Some,
            ChatsNearby::known(tag_of(d)->Some_0),
        ensures
            Self::parse(d, at) == ChatsNearby::parse(d, at),
    {
        reveal(<Response as Wire>::parse);
        Self::routes_to_chats_nearby(tag_of(d)->Some_0);
    }

    /// A discriminator of `ChatInviteLink` belongs to the arm `ChatInviteLink`.
    pub proof fn routes_to_chat_invite_link(t: Seq<char>)
        requires
            ChatInviteLink::known(t),
        ensures
            Self::route(t) == 79,
    {
        reveal_strlit("chatInviteLink");
        assert("chatInviteLink"@.len() == 14);
        Self::tags_spelled_14();
    }

    /// A document whose discriminator belongs to `ChatInviteLink` decodes through the envelope
    /// exactly as it decodes through `ChatInviteLink` itself.
    pub proof fn agrees_with_chat_invite_link(d: Doc, at: Seq<char>)
        requires
            tag_of(d) is Some,
            ChatInviteLink::known(tag_of(d)->Some_0),
        ensures
            Self::parse(d, at) == ChatInviteLink::parse(d, at),
    {
        reveal(<Response as Wire>::parse);
        Self::routes_to_chat_invite_link(tag_of(d)->Some_0);
    }

    /// A discriminator of `ChatInviteLinkInfo` belongs to the arm `ChatInviteLinkInfo`.
    pub proof fn routes_to_chat_invite_link_info(t: Seq<char>)
        requires
            ChatInviteLinkInfo::known(t),
        ensures
            Self::route(t) == 80,
    {
        reveal_strlit("chatInviteLinkInfo");
        assert("chatInviteLinkInfo"@.len() == 18);
        Self::tags_spelled_18();
    }

    /// A document whose discriminator belongs to `ChatInviteLinkInfo` decodes through the envelope
    /// exactly as it decodes through `ChatInviteLinkInfo` itself.
    pub proof fn agrees_with_chat_invite_link_info(d: Doc, at: Seq<char>)
        requires
            tag_of(d) is Some,
            ChatInviteLinkInfo::known(tag_of(d)->Some_0),
        ensures
            Self::parse(d, at) == ChatInviteLinkInfo::parse(d, at),
    {
        reveal(<Response as Wire>::parse);
        Self::routes_to_chat_invite_link_info(tag_of(d)->Some_0);
    }

    /// A discriminator of `PublicChatType` belongs to the arm `PublicChatType`.
    pub proof fn routes_to_public_chat_type(t: Seq<char>)
        requires
            PublicChatType::known(t),
        ensures
            Self::route(t) == 81,
    {
        reveal_strlit("publicChatTypeHasUsername");
        reveal_strlit("publicChatTypeIsLocationBased");
        assert("publicChatTypeHasUsername"@.len() == 25);
        assert("publicChatTypeIsLocationBased"@.len() == 29);
        Self::tags_spelled_25();
        Self::tags_spelled_29();
    }

    /// A document whose discriminator belongs to `PublicChatType` decodes through the envelope
    /// exactly as it decodes through `PublicChatType` itself.
    pub proof fn agrees_with_public_chat_type(d: Doc, at: Seq<char>)
        requires
            tag_of(d) is Some,
            PublicChatType::known(tag_of(d)->Some_0),
        ensures
            Self::parse(d, at) == PublicChatType::parse(d, at),
    {
        reveal(<Response as Wire>::parse);
        Self::routes_to_public_chat_type(tag_of(d)->Some_0);
    }

    /// A discriminator of `ChatActionBar` belongs to the arm `ChatActionBar`.
    pub proof fn routes_to_chat_action_bar(t: Seq<char>)
        requires
            ChatActionBar::known(t),
        ensures
            Self::route(t) == 82,
    {
        reveal_strlit("chatActionBarReportSpam");
        reveal_strlit("chatActionBarReportUnrelatedLocation");
        reveal_strlit("chatActionBarReportAddBlock");
        reveal_strlit("chatActionBarAddContact");
        reveal_strlit("chatActionBarSharePhoneNumber");
        assert("chatActionBarReportSpam"@.len() == 23);
        assert("chatActionBarReportUnrelatedLocation"@.len() == 36);
        assert("chatActionBarReportAddBlock"@.len() == 27);
        assert("chatActionBarAddContact"@.len() == 23);
        assert("chatActionBarSharePhoneNumber"@.len() == 29);
        Self::tags_spelled_23();
        Self::tags_spelled_27();
        Self::tags_spelled_29();
        Self::tags_spelled_36();
    }

    /// A document whose discriminator belongs to `ChatActionBar` decodes through the envelope
    /// exactly as it decodes through `ChatActionBar` itself.
    pub proof fn agrees_with_chat_action_bar(d: Doc, at: Seq<char>)
        requires
            tag_of(d) is Some,
            ChatActionBar::known(tag_of(d)->Some_0),
        ensures
            Self::parse(d, at) == ChatActionBar::parse(d, at),
    {
        reveal(<Response as Wire>::parse);
        Self::routes_to_chat_action_bar(tag_of(d)->Some_0);
    }

    /// A discriminator of `KeyboardButtonType` belongs to the arm `KeyboardButtonType`.
    pub proof fn routes_to_keyboard_button_type(t: Seq<char>)
        requires
            KeyboardButtonType::known(t),
        ensures
            Self::route(t) == 83,
    {
        reveal_strlit("keyboardButtonTypeText");
        reveal_strlit("keyboardButtonTypeRequestPhoneNumber");
        reveal_strlit("keyboardButtonTypeRequestLocation");
        reveal_strlit("keyboardButtonTypeRequestPoll");
        assert("keyboardButtonTypeText"@.len() == 22);
        assert("keyboardButtonTypeRequestPhoneNumber"@.len() == 36);
        assert("keyboardButtonTypeRequestLocation"@.len() == 33);
        assert("keyboardButtonTypeRequestPoll"@.len() == 29);
        Self::tags_spelled_22();
        Self::tags_spelled_29();
        Self::tags_spelled_33();
        Self::tags_spelled_36();
    }

    /// A document whose discriminator belongs to `KeyboardButtonType` decodes through the envelope
    /// exactly as it decodes through `KeyboardButtonType` itself.
    pub proof fn agrees_with_keyboard_button_type(d: Doc, at: Seq<char>)
        requires
            tag_of(d) is Some,
            KeyboardButtonType::known(tag_of(d)->Some_0),
        ensures
            Self::parse(d, at) == KeyboardButtonType::parse(d, at),
    {
        reveal(<Response as Wire>::parse);
        Self::routes_to_keyboard_button_type(tag_of(d)->Some_0);
    }

    /// A discriminator of `KeyboardButton` belongs to the arm `KeyboardButton`.
    pub proof fn routes_to_keyboard_button(t: Seq<char>)
        requires
            KeyboardButton::known(t),
        ensures
            Self::route(t) == 84,
    {
        reveal_strlit("keyboardButton");
        assert("keyboardButton"@.len() == 14);
        Self::tags_spelled_14();
    }

    /// A document whose discriminator belongs to `KeyboardButton` decodes through the envelope
    /// exactly as it decodes through `KeyboardButton` itself.
    pub proof fn agrees_with_keyboard_button(d: Doc, at: Seq<char>)
        requires
            tag_of(d) is Some,
            KeyboardButton::known(tag_of(d)->Some_0),
        ensures
            Self::parse(d, at) == KeyboardButton::parse(d, at),
    {
        reveal(<Response as Wire>::parse);
        Self::routes_to_keyboard_button(tag_of(d)->Some_0);
    }

    /// A discriminator of `InlineKeyboardButtonType` belongs to the arm `InlineKeyboardButtonType`.
    pub proof fn routes_to_inline_keyboard_button_type(t: Seq<char>)
        requires
            InlineKeyboardButtonType::known(t),
        ensures
            Self::route(t) == 85,
    {
        reveal_strlit("inlineKeyboardButtonTypeUrl");
        reveal_strlit("inlineKeyboardButtonTypeLoginUrl");
        reveal_strlit("inlineKeyboardButtonTypeCallback");
        reveal_strlit("inlineKeyboardButtonTypeCallbackGame");
        reveal_strlit("inlineKeyboardButtonTypeSwitchInline");
        reveal_strlit("inlineKeyboardButtonTypeBuy");
        assert("inlineKeyboardButtonTypeUrl"@.len() == 27);
        assert("inlineKeyboardButtonTypeLoginUrl"@.len() == 32);
        assert("inlineKeyboardButtonTypeCallback"@.len() == 32);
        assert("inlineKeyboardButtonTypeCallbackGame"@.len() == 36);
        assert("inlineKeyboardButtonTypeSwitchInline"@.len() == 36);
        assert("inlineKeyboardButtonTypeBuy"@.len() == 27);
        Self::tags_spelled_27();
        Self::tags_spelled_32();
        Self::tags_spelled_36();
    }

    /// A document whose discriminator belongs to `InlineKeyboardButtonType` decodes through the
    /// envelope exactly as it decodes through `InlineKeyboardButtonType` itself.
    pub proof fn agrees_with_inline_keyboard_button_type(d: Doc, at: Seq<char>)
        requires
            tag_of(d) is Some,
            InlineKeyboardButtonType::known(tag_of(d)->Some_0),
        ensures
            Self::parse(d, at) == InlineKeyboardButtonType::parse(d, at),
    {
        reveal(<Response as Wire>::parse);
        Self::routes_to_inline_keyboard_button_type(tag_of(d)->Some_0);
    }

    /// A discriminator of `InlineKeyboardButton` belongs to the arm `InlineKeyboardButton`.
    pub proof fn routes_to_inline_keyboard_button(t: Seq<char>)
        requires
            InlineKeyboardButton::known(t),
        ensures
            Self::route(t) == 86,
    {
        reveal_strlit("inlineKeyboardButton");
        assert("inlineKeyboardButton"@.len() == 20);
        Self::tags_spelled_20();
    }

    /// A document whose discriminator belongs to `InlineKeyboardButton` decodes through the
    /// envelope exactly as it decodes through `InlineKeyboardButton` itself.
    pub proof fn agrees_with_inline_keyboard_button(d: Doc, at: Seq<char>)
        requires
            tag_of(d) is Some,
            InlineKeyboardButton::known(tag_of(d)->Some_0),
        ensures
            Self::parse(d, at) == InlineKeyboardButton::parse(d, at),
    {
        reveal(<Response as Wire>::parse);
        Self::routes_to_inline_keyboard_button(tag_of(d)->Some_0);
    }

    /// A discriminator of `ReplyMarkup` belongs to the arm `ReplyMarkup`.
    pub proof fn routes_to_reply_markup(t: Seq<char>)
        requires
            ReplyMarkup::known(t),
        ensures
            Self::route(t) == 87,
    {
        reveal_strlit("replyMarkupRemoveKeyboard");
        reveal_strlit("replyMarkupForceReply");
        reveal_strlit("replyMarkupShowKeyboard");
        reveal_strlit("replyMarkupInlineKeyboard");
        assert("replyMarkupRemoveKeyboard"@.len() == 25);
        assert("replyMarkupForceReply"@.len() == 21);
        assert("replyMarkupShowKeyboard"@.len() == 23);
        assert("replyMarkupInlineKeyboard"@.len() == 25);
        Self::tags_spelled_21();
        Self::tags_spelled_23();
        Self::tags_spelled_25();
    }

    /// A document whose discriminator belongs to `ReplyMarkup` decodes through the envelope exactly
    /// as it decodes through `ReplyMarkup` itself.
    pub proof fn agrees_with_reply_markup(d: Doc, at: Seq<char>)
        requires
            tag_of(d) is Some,
            ReplyMarkup::known(tag_of(d)->Some_0),
        ensures
            Self::parse(d, at) == ReplyMarkup::parse(d, at),
    {
        reveal(<Response as Wire>::parse);
        Self::routes_to_reply_markup(tag_of(d)->Some_0);
    }

    /// A discriminator of `LoginUrlInfo` belongs to the arm `LoginUrlInfo`.
    pub proof fn routes_to_login_url_info(t: Seq<char>)
        requires
            LoginUrlInfo::known(t),
        ensures
            Self::route(t) == 88,
    {
        reveal_strlit("loginUrlInfoOpen");
        reveal_strlit("loginUrlInfoRequestConfirmation");
        assert("loginUrlInfoOpen"@.len() == 16);
        assert("loginUrlInfoRequestConfirmation"@.len() == 31);
        Self::tags_spelled_16();
        Self::tags_spelled_31();
    }

    /// A document whose discriminator belongs to `LoginUrlInfo` decodes through the envelope
    /// exactly as it decodes through `LoginUrlInfo` itself.
    pub proof fn agrees_with_login_url_info(d: Doc, at: Seq<char>)
        requires
            tag_of(d) is Some,
            LoginUrlInfo::known(tag_of(d)->Some_0),
        ensures
            Self::parse(d, at) == LoginUrlInfo::parse(d, at),
    {
        reveal(<Response as Wire>::parse);
        Self::routes_to_login_url_info(tag_of(d)->Some_0);
    }

    /// A discriminator of `RichText` belongs to the arm `RichText`.
    pub proof fn routes_to_rich_text(t: Seq<char>)
        requires
            RichText::known(t),
        ensures
            Self::route(t) == 89,
    {
        reveal_strlit("richTextPlain");
        reveal_strlit("richTextBold");
        reveal_strlit("richTextItalic");
        reveal_strlit("richTextUnderline");
        reveal_strlit("richTextStrikethrough");
        reveal_strlit("richTextFixed");
        reveal_strlit("richTextUrl");
        reveal_strlit("richTextEmailAddress");
        reveal_strlit("richTextSubscript");
        reveal_strlit("richTextSuperscript");
        reveal_strlit("richTextMarked");
        reveal_strlit("richTextPhoneNumber");
        reveal_strlit("richTextIcon");
        reveal_strlit("richTextAnchor");
        reveal_strlit("richTexts");
        assert("richTextPlain"@.len() == 13);
        assert("richTextBold"@.len() == 12);
        assert("richTextItalic"@.len() == 14);
        assert("richTextUnderline"@.len() == 17);
        assert("richTextStrikethrough"@.len() == 21);
        assert("richTextFixed"@.len() == 13);
        assert("richTextUrl"@.len() == 11);
        assert("richTextEmailAddress"@.len() == 20);
        assert("richTextSubscript"@.len() == 17);
        assert("richTextSuperscript"@.len() == 19);
        assert("richTextMarked"@.len() == 14);
        assert("richTextPhoneNumber"@.len() == 19);
        assert("richTextIcon"@.len() == 12);
        assert("richTextAnchor"@.len() == 14);
        assert("richTexts"@.len() == 9);
        Self::tags_spelled_9();
        Self::tags_spelled_11();
        Self::tags_spelled_12();
        Self::tags_spelled_13();
        Self::tags_spelled_14();
        Self::tags_spelled_17();
        Self::tags_spelled_19();
        Self::tags_spelled_20();
        Self::tags_spelled_21();
    }

    /// A document whose discriminator belongs to `RichText` decodes through the envelope exactly as
    /// it decodes through `RichText` itself.
    pub proof fn agrees_with_rich_text(d: Doc, at: Seq<char>)
        requires
            tag_of(d) is Some,
            RichText::known(tag_of(d)->Some_0),
        ensures
            Self::parse(d, at) == RichText::parse(d, at),
    {
        reveal(<Response as Wire>::parse);
        Self::routes_to_rich_text(tag_of(d)->Some_0);
    }

    /// A discriminator of `PageBlockCaption` belongs to the arm `PageBlockCaption`.
    pub proof fn routes_to_page_block_caption(t: Seq<char>)
        requires
            PageBlockCaption::known(t),
        ensures
            Self::route(t) == 90,
    {
        reveal_strlit("pageBlockCaption");
        assert("pageBlockCaption"@.len() == 16);
        Self::tags_spelled_16();
    }

    /// A document whose discriminator belongs to `PageBlockCaption` decodes through the envelope
    /// exactly as it decodes through `PageBlockCaption` itself.
    pub proof fn agrees_with_page_block_caption(d: Doc, at: Seq<char>)
        requires
            tag_of(d) is Some,
            PageBlockCaption::known(tag_of(d)->Some_0),
        ensures
            Self::parse(d, at) == PageBlockCaption::parse(d, at),
    {
        reveal(<Response as Wire>::parse);
        Self::routes_to_page_block_caption(tag_of(d)->Some_0);
    }

    /// A discriminator of `PageBlockListItem` belongs to the arm `PageBlockListItem`.
    pub proof fn routes_to_page_block_list_item(t: Seq<char>)
        requires
            PageBlockListItem::known(t),
        ensures
            Self::route(t) == 91,
    {
        reveal_strlit("pageBlockListItem");
        assert("pageBlockListItem"@.len() == 17);
        Self::tags_spelled_17();
    }

    /// A document whose discriminator belongs to `PageBlockListItem` decodes through the envelope
    /// exactly as it decodes through `PageBlockListItem` itself.
    pub proof fn agrees_with_page_block_list_item(d: Doc, at: Seq<char>)
        requires
            tag_of(d) is Some,
            PageBlockListItem::known(tag_of(d)->Some_0),
        ensures
            Self::parse(d, at) == PageBlockListItem::parse(d, at),
    {
        reveal(<Response as Wire>::parse);
        Self::routes_to_page_block_list_item(tag_of(d)->Some_0);
    }

    /// A discriminator of `PageBlockHorizontalAlignment` belongs to the arm `PageBlockHorizontalAlignment`.
    pub proof fn routes_to_page_block_horizontal_alignment(t: Seq<char>)
        requires
            PageBlockHorizontalAlignment::known(t),
        ensures
            Self::route(t) == 92,
    {
        reveal_strlit("pageBlockHorizontalAlignmentLeft");
        reveal_strlit("pageBlockHorizontalAlignmentCenter");
        reveal_strlit("pageBlockHorizontalAlignmentRight");
        assert("pageBlockHorizontalAlignmentLeft"@.len() == 32);
        assert("pageBlockHorizontalAlignmentCenter"@.len() == 34);
        assert("pageBlockHorizontalAlignmentRight"@.len() == 33);
        Self::tags_spelled_32();
        Self::tags_spelled_33();
        Self::tags_spelled_34();
    }

    /// A document whose discriminator belongs to `PageBlockHorizontalAlignment` decodes through the
    /// envelope exactly as it decodes through `PageBlockHorizontalAlignment` itself.
    pub proof fn agrees_with_page_block_horizontal_alignment(d: Doc, at: Seq<char>)
        requires
            tag_of(d) is Some,
            PageBlockHorizontalAlignment::known(tag_of(d)->Some_0),
        ensures
            Self::parse(d, at) == PageBlockHorizontalAlignment::parse(d, at),
    {
        reveal(<Response as Wire>::parse);
        Self::routes_to_page_block_horizontal_alignment(tag_of(d)->Some_0);
    }

    /// A discriminator of `PageBlockVerticalAlignment` belongs to the arm `PageBlockVerticalAlignment`.
    pub proof fn routes_to_page_block_vertical_alignment(t: Seq<char>)
        requires
            PageBlockVerticalAlignment::known(t),
        ensures
            Self::route(t) == 93,
    {
        reveal_strlit("pageBlockVerticalAlignmentTop");
        reveal_strlit("pageBlockVerticalAlignmentMiddle");
        reveal_strlit("pageBlockVerticalAlignmentBottom");
        assert("pageBlockVerticalAlignmentTop"@.len() == 29);
        assert("pageBlockVerticalAlignmentMiddle"@.len() == 32);
        assert("pageBlockVerticalAlignmentBottom"@.len() == 32);
        Self::tags_spelled_29();
        Self::tags_spelled_32();
    }

    /// A document whose discriminator belongs to `PageBlockVerticalAlignment` decodes through the
    /// envelope exactly as it decodes through `PageBlockVerticalAlignment` itself.
    pub proof fn agrees_with_page_block_vertical_alignment(d: Doc, at: Seq<char>)
        requires
            tag_of(d) is Some,
            PageBlockVerticalAlignment::known(tag_of(d)->Some_0),
        ensures
            Self::parse(d, at) == PageBlockVerticalAlignment::parse(d, at),
    {
        reveal(<Response as Wire>::parse);
        Self::routes_to_page_block_vertical_alignment(tag_of(d)->Some_0);
    }

    /// A discriminator of `PageBlockTableCell` belongs to the arm `PageBlockTableCell`.
    pub proof fn routes_to_page_block_table_cell(t: Seq<char>)
        requires
            PageBlockTableCell::known(t),
        ensures
            Self::route(t) == 94,
    {
        reveal_strlit("pageBlockTableCell");
        assert("pageBlockTableCell"@.len() == 18);
        Self::tags_spelled_18();
    }

    /// A document whose discriminator belongs to `PageBlockTableCell` decodes through the envelope
    /// exactly as it decodes through `PageBlockTableCell` itself.
    pub proof fn agrees_with_page_block_table_cell(d: Doc, at: Seq<char>)
        requires
            tag_of(d) is Some,
            PageBlockTableCell::known(tag_of(d)->Some_0),
        ensures
            Self::parse(d, at) == PageBlockTableCell::parse(d, at),
    {
        reveal(<Response as Wire>::parse);
        Self::routes_to_page_block_table_cell(tag_of(d)->Some_0);
    }

    /// A discriminator of `PageBlockRelatedArticle` belongs to the arm `PageBlockRelatedArticle`.
    pub proof fn routes_to_page_block_related_article(t: Seq<char>)
        requires
            PageBlockRelatedArticle::known(t),
        ensures
            Self::route(t) == 95,
    {
        reveal_strlit("pageBlockRelatedArticle");
        assert("pageBlockRelatedArticle"@.len() == 23);
        Self::tags_spelled_23();
    }

    /// A document whose discriminator belongs to `PageBlockRelatedArticle` decodes through the
    /// envelope exactly as it decodes through `PageBlockRelatedArticle` itself.
    pub proof fn agrees_with_page_block_related_article(d: Doc, at: Seq<char>)
        requires
            tag_of(d) is Some,
            PageBlockRelatedArticle::known(tag_of(d)->Some_0),
        ensures
            Self::parse(d, at) == PageBlockRelatedArticle::parse(d, at),
    {
        reveal(<Response as Wire>::parse);
        Self::routes_to_page_block_related_article(tag_of(d)->Some_0);
    }

    /// A discriminator of `PageBlock` belongs to the arm `PageBlock`.
    pub proof fn routes_to_page_block(t: Seq<char>)
        requires
            PageBlock::known(t),
        ensures
            Self::route(t) == 96,
    {
        reveal_strlit("pageBlockTitle");
        reveal_strlit("pageBlockSubtitle");
        reveal_strlit("pageBlockAuthorDate");
        reveal_strlit("pageBlockHeader");
        reveal_strlit("pageBlockSubheader");
        reveal_strlit("pageBlockKicker");
        reveal_strlit("pageBlockParagraph");
        reveal_strlit("pageBlockPreformatted");
        reveal_strlit("pageBlockFooter");
        reveal_strlit("pageBlockDivider");
        reveal_strlit("pageBlockAnchor");
        reveal_strlit("pageBlockList");
        reveal_strlit("pageBlockBlockQuote");
        reveal_strlit("pageBlockPullQuote");
        reveal_strlit("pageBlockAnimation");
        reveal_strlit("pageBlockAudio");
        reveal_strlit("pageBlockPhoto");
        reveal_strlit("pageBlockVideo");
        reveal_strlit("pageBlockVoiceNote");
        reveal_strlit("pageBlockCover");
        reveal_strlit("pageBlockEmbedded");
        reveal_strlit("pageBlockEmbeddedPost");
        reveal_strlit("pageBlockCollage");
        reveal_strlit("pageBlockSlideshow");
        reveal_strlit("pageBlockChatLink");
        reveal_strlit("pageBlockTable");
        reveal_strlit("pageBlockDetails");
        reveal_strlit("pageBlockRelatedArticles");
        reveal_strlit("pageBlockMap");
        assert("pageBlockTitle"@.len() == 14);
        assert("pageBlockSubtitle"@.len() == 17);
        assert("pageBlockAuthorDate"@.len() == 19);
        assert("pageBlockHeader"@.len() == 15);
        assert("pageBlockSubheader"@.len() == 18);
        assert("pageBlockKicker"@.len() == 15);
        assert("pageBlockParagraph"@.len() == 18);
        assert("pageBlockPreformatted"@.len() == 21);
        assert("pageBlockFooter"@.len() == 15);
        assert("pageBlockDivider"@.len() == 16);
        assert("pageBlockAnchor"@.len() == 15);
        assert("pageBlockList"@.len() == 13);
        assert("pageBlockBlockQuote"@.len() == 19);
        assert("pageBlockPullQuote"@.len() == 18);
        assert("pageBlockAnimation"@.len() == 18);
        assert("pageBlockAudio"@.len() == 14);
        assert("pageBlockPhoto"@.len() == 14);
        assert("pageBlockVideo"@.len() == 14);
        assert("pageBlockVoiceNote"@.len() == 18);
        assert("pageBlockCover"@.len() == 14);
        assert("pageBlockEmbedded"@.len() == 17);
        assert("pageBlockEmbeddedPost"@.len() == 21);
        assert("pageBlockCollage"@.len() == 16);
        assert("pageBlockSlideshow"@.len() == 18);
        assert("pageBlockChatLink"@.len() == 17);
        assert("pageBlockTable"@.len() == 14);
        assert("pageBlockDetails"@.len() == 16);
        assert("pageBlockRelatedArticles"@.len() == 24);
        assert("pageBlockMap"@.len() == 12);
        Self::tags_spelled_12();
        Self::tags_spelled_13();
        Self::tags_spelled_14();
        Self::tags_spelled_15();
        Self::tags_spelled_16();
        Self::tags_spelled_17();
        Self::tags_spelled_18();
        Self::tags_spelled_19();
        Self::tags_spelled_21();
        Self::tags_spelled_24();
    }

    /// A document whose discriminator belongs to `PageBlock` decodes through the envelope exactly
    /// as it decodes through `PageBlock` itself.
    pub proof fn agrees_with_page_block(d: Doc, at: Seq<char>)
        requires
            tag_of(d) is Some,
            PageBlock::known(tag_of(d)->Some_0),
        ensures
            Self::parse(d, at) == PageBlock::parse(d, at),
    {
        reveal(<Response as Wire>::parse);
        Self::routes_to_page_block(tag_of(d)->Some_0);
    }

    /// A discriminator of `WebPageInstantView` belongs to the arm `WebPageInstantView`.
    pub proof fn routes_to_web_page_instant_view(t: Seq<char>)
        requires
            WebPageInstantView::known(t),
        ensures
            Self::route(t) == 97,
    {
        reveal_strlit("webPageInstantView");
        assert("webPageInstantView"@.len() == 18);
        Self::tags_spelled_18();
    }

    /// A document whose discriminator belongs to `WebPageInstantView` decodes through the envelope
    /// exactly as it decodes through `WebPageInstantView` itself.
    pub proof fn agrees_with_web_page_instant_view(d: Doc, at: Seq<char>)
        requires
            tag_of(d) is Some,
            WebPageInstantView::known(tag_of(d)->Some_0),
        ensures
            Self::parse(d, at) == WebPageInstantView::parse(d, at),
    {
        reveal(<Response as Wire>::parse);
        Self::routes_to_web_page_instant_view(tag_of(d)->Some_0);
    }

    /// A discriminator of `WebPage` belongs to the arm `WebPage`.
    pub proof fn routes_to_web_page(t: Seq<char>)
        requires
            WebPage::known(t),
        ensures
            Self::route(t) == 98,
    {
        reveal_strlit("webPage");
        assert("webPage"@.len() == 7);
        Self::tags_spelled_7();
    }

    /// A document whose discriminator belongs to `WebPage` decodes through the envelope exactly as
    /// it decodes through `WebPage` itself.
    pub proof fn agrees_with_web_page(d: Doc, at: Seq<char>)
        requires
            tag_of(d) is Some,
            WebPage::known(tag_of(d)->Some_0),
        ensures
            Self::parse(d, at) == WebPage::parse(d, at),
    {
        reveal(<Response as Wire>::parse);
        Self::routes_to_web_page(tag_of(d)->Some_0);
    }

    /// A discriminator of `Address` belongs to the arm `Address`.
    pub proof fn routes_to_address(t: Seq<char>)
        requires
            Address::known(t),
        ensures
            Self::route(t) == 99,
    {
        reveal_strlit("address");
        assert("address"@.len() == 7);
        Self::tags_spelled_7();
    }

    /// A document whose discriminator belongs to `Address` decodes through the envelope exactly as
    /// it decodes through `Address` itself.
    pub proof fn agrees_with_address(d: Doc, at: Seq<char>)
        requires
            tag_of(d) is Some,
            Address::known(tag_of(d)->Some_0),
        ensures
            Self::parse(d, at) == Address::parse(d, at),
    {
        reveal(<Response as Wire>::parse);
        Self::routes_to_address(tag_of(d)->Some_0);
    }

    /// A discriminator of `LabeledPricePart` belongs to the arm `LabeledPricePart`.
    pub proof fn routes_to_labeled_price_part(t: Seq<char>)
        requires
            LabeledPricePart::known(t),
        ensures
            Self::route(t) == 100,
    {
        reveal_strlit("labeledPricePart");
        assert("labeledPricePart"@.len() == 16);
        Self::tags_spelled_16();
    }

    /// A document whose discriminator belongs to `LabeledPricePart` decodes through the envelope
    /// exactly as it decodes through `LabeledPricePart` itself.
    pub proof fn agrees_with_labeled_price_part(d: Doc, at: Seq<char>)
        requires
            tag_of(d) is Some,
            LabeledPricePart::known(tag_of(d)->Some_0),
        ensures
            Self::parse(d, at) == LabeledPricePart::parse(d, at),
    {
        reveal(<Response as Wire>::parse);
        Self::routes_to_labeled_price_part(tag_of(d)->Some_0);
    }

    /// A discriminator of `Invoice` belongs to the arm `Invoice`.
    pub proof fn routes_to_invoice(t: Seq<char>)
        requires
            Invoice::known(t),
        ensures
            Self::route(t) == 101,
    {
        reveal_strlit("invoice");
        assert("invoice"@.len() == 7);
        Self::tags_spelled_7();
    }

    /// A document whose discriminator belongs to `Invoice` decodes through the envelope exactly as
    /// it decodes through `Invoice` itself.
    pub proof fn agrees_with_invoice(d: Doc, at: Seq<char>)
        requires
            tag_of(d) is Some,
            Invoice::known(tag_of(d)->Some_0),
        ensures
            Self::parse(d, at) == Invoice::parse(d, at),
    {
        reveal(<Response as Wire>::parse);
        Self::routes_to_invoice(tag_of(d)->Some_0);
    }

    /// A discriminator of `OrderInfo` belongs to the arm `OrderInfo`.
    pub proof fn routes_to_order_info(t: Seq<char>)
        requires
            OrderInfo::known(t),
        ensures
            Self::route(t) == 102,
    {
        reveal_strlit("orderInfo");
        assert("orderInfo"@.len() == 9);
        Self::tags_spelled_9();
    }

    /// A document whose discriminator belongs to `OrderInfo` decodes through the envelope exactly
    /// as it decodes through `OrderInfo` itself.
    pub proof fn agrees_with_order_info(d: Doc, at: Seq<char>)
        requires
            tag_of(d) is Some,
            OrderInfo::known(tag_of(d)->Some_0),
        ensures
            Self::parse(d, at) == OrderInfo::parse(d, at),
    {
        reveal(<Response as Wire>::parse);
        Self::routes_to_order_info(tag_of(d)->Some_0);
    }

    /// A discriminator of `ShippingOption` belongs to the arm `ShippingOption`.
    pub proof fn routes_to_shipping_option(t: Seq<char>)
        requires
            ShippingOption::known(t),
        ensures
            Self::route(t) == 103,
    {
        reveal_strlit("shippingOption");
        assert("shippingOption"@.len() == 14);
        Self::tags_spelled_14();
    }

    /// A document whose discriminator belongs to `ShippingOption` decodes through the envelope
    /// exactly as it decodes through `ShippingOption` itself.
    pub proof fn agrees_with_shipping_option(d: Doc, at: Seq<char>)
        requires
            tag_of(d) is Some,
            ShippingOption::known(tag_of(d)->Some_0),
        ensures
            Self::parse(d, at) == ShippingOption::parse(d, at),
    {
        reveal(<Response as Wire>::parse);
        Self::routes_to_shipping_option(tag_of(d)->Some_0);
    }

    /// A discriminator of `SavedCredentials` belongs to the arm `SavedCredentials`.
    pub proof fn routes_to_saved_credentials(t: Seq<char>)
        requires
            SavedCredentials::known(t),
        ensures
            Self::route(t) == 104,
    {
        reveal_strlit("savedCredentials");
        assert("savedCredentials"@.len() == 16);
        Self::tags_spelled_16();
    }

    /// A document whose discriminator belongs to `SavedCredentials` decodes through the envelope
    /// exactly as it decodes through `SavedCredentials` itself.
    pub proof fn agrees_with_saved_credentials(d: Doc, at: Seq<char>)
        requires
            tag_of(d) is Some,
            SavedCredentials::known(tag_of(d)->Some_0),
        ensures
            Self::parse(d, at) == SavedCredentials::parse(d, at),
    {
        reveal(<Response as Wire>::parse);
        Self::routes_to_saved_credentials(tag_of(d)->Some_0);
    }

    /// A discriminator of `InputCredentials` belongs to the arm `InputCredentials`.
    pub proof fn routes_to_input_credentials(t: Seq<char>)
        requires
            InputCredentials::known(t),
        ensures
            Self::route(t) == 105,
    {
        reveal_strlit("inputCredentialsSaved");
        reveal_strlit("inputCredentialsNew");
        reveal_strlit("inputCredentialsAndroidPay");
        reveal_strlit("inputCredentialsApplePay");
        assert("inputCredentialsSaved"@.len() == 21);
        assert("inputCredentialsNew"@.len() == 19);
        assert("inputCredentialsAndroidPay"@.len() == 26);
        assert("inputCredentialsApplePay"@.len() == 24);
        Self::tags_spelled_19();
        Self::tags_spelled_21();
        Self::tags_spelled_24();
        Self::tags_spelled_26();
    }

    /// A document whose discriminator belongs to `InputCredentials` decodes through the envelope
    /// exactly as it decodes through `InputCredentials` itself.
    pub proof fn agrees_with_input_credentials(d: Doc, at: Seq<char>)
        requires
            tag_of(d) is Some,
            InputCredentials::known(tag_of(d)->Some_0),
        ensures
            Self::parse(d, at) == InputCredentials::parse(d, at),
    {
        reveal(<Response as Wire>::parse);
        Self::routes_to_input_credentials(tag_of(d)->Some_0);
    }

    /// A discriminator of `PaymentsProviderStripe` belongs to the arm `PaymentsProviderStripe`.
    pub proof fn routes_to_payments_provider_stripe(t: Seq<char>)
        requires
            PaymentsProviderStripe::known(t),
        ensures
            Self::route(t) == 106,
    {
        reveal_strlit("paymentsProviderStripe");
        assert("paymentsProviderStripe"@.len() == 22);
        Self::tags_spelled_22();
    }

    /// A document whose discriminator belongs to `PaymentsProviderStripe` decodes through the
    /// envelope exactly as it decodes through `PaymentsProviderStripe` itself.
    pub proof fn agrees_with_payments_provider_stripe(d: Doc, at: Seq<char>)
        requires
            tag_of(d) is Some,
            PaymentsProviderStripe::known(tag_of(d)->Some_0),
        ensures
            Self::parse(d, at) == PaymentsProviderStripe::parse(d, at),
    {
        reveal(<Response as Wire>::parse);
        Self::routes_to_payments_provider_stripe(tag_of(d)->Some_0);
    }

    /// A discriminator of `PaymentForm` belongs to the arm `PaymentForm`.
    pub proof fn routes_to_payment_form(t: Seq<char>)
        requires
            PaymentForm::known(t),
        ensures
            Self::route(t) == 107,
    {
        reveal_strlit("paymentForm");
        assert("paymentForm"@.len() == 11);
        Self::tags_spelled_11();
    }

    /// A document whose discriminator belongs to `PaymentForm` decodes through the envelope exactly
    /// as it decodes through `PaymentForm` itself.
    pub proof fn agrees_with_payment_form(d: Doc, at: Seq<char>)
        requires
            tag_of(d) is Some,
            PaymentForm::known(tag_of(d)->Some_0),
        ensures
            Self::parse(d, at) == PaymentForm::parse(d, at),
    {
        reveal(<Response as Wire>::parse);
        Self::routes_to_payment_form(tag_of(d)->Some_0);
    }

    /// A discriminator of `ValidatedOrderInfo` belongs to the arm `ValidatedOrderInfo`.
    pub proof fn routes_to_validated_order_info(t: Seq<char>)
        requires
            ValidatedOrderInfo::known(t),
        ensures
            Self::route(t) == 108,
    {
        reveal_strlit("validatedOrderInfo");
        assert("validatedOrderInfo"@.len() == 18);
        Self::tags_spelled_18();
    }

    /// A document whose discriminator belongs to `ValidatedOrderInfo` decodes through the envelope
    /// exactly as it decodes through `ValidatedOrderInfo` itself.
    pub proof fn agrees_with_validated_order_info(d: Doc, at: Seq<char>)
        requires
            tag_of(d) is Some,
            ValidatedOrderInfo::known(tag_of(d)->Some_0),
        ensures
            Self::parse(d, at) == ValidatedOrderInfo::parse(d, at),
    {
        reveal(<Response as Wire>::parse);
        Self::routes_to_validated_order_info(tag_of(d)->Some_0);
    }

    /// A discriminator of `PaymentResult` belongs to the arm `PaymentResult`.
    pub proof fn routes_to_payment_result(t: Seq<char>)
        requires
            PaymentResult::known(t),
        ensures
            Self::route(t) == 109,
    {
        reveal_strlit("paymentResult");
        assert("paymentResult"@.len() == 13);
        Self::tags_spelled_13();
    }

    /// A document whose discriminator belongs to `PaymentResult` decodes through the envelope
    /// exactly as it decodes through `PaymentResult` itself.
    pub proof fn agrees_with_payment_result(d: Doc, at: Seq<char>)
        requires
            tag_of(d) is Some,
            PaymentResult::known(tag_of(d)->Some_0),
        ensures
            Self::parse(d, at) == PaymentResult::parse(d, at),
    {
        reveal(<Response as Wire>::parse);
        Self::routes_to_payment_result(tag_of(d)->Some_0);
    }

    /// A discriminator of `PaymentReceipt` belongs to the arm `PaymentReceipt`.
    pub proof fn routes_to_payment_receipt(t: Seq<char>)
        requires
            PaymentReceipt::known(t),
        ensures
            Self::route(t) == 110,
    {
        reveal_strlit("paymentReceipt");
        assert("paymentReceipt"@.len() == 14);
        Self::tags_spelled_14();
    }

    /// A document whose discriminator belongs to `PaymentReceipt` decodes through the envelope
    /// exactly as it decodes through `PaymentReceipt` itself.
    pub proof fn agrees_with_payment_receipt(d: Doc, at: Seq<char>)
        requires
            tag_of(d) is Some,
            PaymentReceipt::known(tag_of(d)->Some_0),
        ensures
            Self::parse(d, at) == PaymentReceipt::parse(d, at),
    {
        reveal(<Response as Wire>::parse);
        Self::routes_to_payment_receipt(tag_of(d)->Some_0);
    }

    /// A discriminator of `DatedFile` belongs to the arm `DatedFile`.
    pub proof fn routes_to_dated_file(t: Seq<char>)
        requires
            DatedFile::known(t),
        ensures
            Self::route(t) == 111,
    {
        reveal_strlit("datedFile");
        assert("datedFile"@.len() == 9);
        Self::tags_spelled_9();
    }

    /// A document whose discriminator belongs to `DatedFile` decodes through the envelope exactly
    /// as it decodes through `DatedFile` itself.
    pub proof fn agrees_with_dated_file(d: Doc, at: Seq<char>)
        requires
            tag_of(d) is Some,
            DatedFile::known(tag_of(d)->Some_0),
        ensures
            Self::parse(d, at) == DatedFile::parse(d, at),
    {
        reveal(<Response as Wire>::parse);
        Self::routes_to_dated_file(tag_of(d)->Some_0);
    }

    /// A discriminator of `PassportElementType` belongs to the arm `PassportElementType`.
    pub proof fn routes_to_passport_element_type(t: Seq<char>)
        requires
            PassportElementType::known(t),
        ensures
            Self::route(t) == 112,
    {
        reveal_strlit("passportElementTypePersonalDetails");
        reveal_strlit("passportElementTypePassport");
        reveal_strlit("passportElementTypeDriverLicense");
        reveal_strlit("passportElementTypeIdentityCard");
        reveal_strlit("passportElementTypeInternalPassport");
        reveal_strlit("passportElementTypeAddress");
        reveal_strlit("passportElementTypeUtilityBill");
        reveal_strlit("passportElementTypeBankStatement");
        reveal_strlit("passportElementTypeRentalAgreement");
        reveal_strlit("passportElementTypePassportRegistration");
        reveal_strlit("passportElementTypeTemporaryRegistration");
        reveal_strlit("passportElementTypePhoneNumber");
        reveal_strlit("passportElementTypeEmailAddress");
        assert("passportElementTypePersonalDetails"@.len() == 34);
        assert("passportElementTypePassport"@.len() == 27);
        assert("passportElementTypeDriverLicense"@.len() == 32);
        assert("passportElementTypeIdentityCard"@.len() == 31);
        assert("passportElementTypeInternalPassport"@.len() == 35);
        assert("passportElementTypeAddress"@.len() == 26);
        assert("passportElementTypeUtilityBill"@.len() == 30);
        assert("passportElementTypeBankStatement"@.len() == 32);
        assert("passportElementTypeRentalAgreement"@.len() == 34);
        assert("passportElementTypePassportRegistration"@.len() == 39);
        assert("passportElementTypeTemporaryRegistration"@.len() == 40);
        assert("passportElementTypePhoneNumber"@.len() == 30);
        assert("passportElementTypeEmailAddress"@.len() == 31);
        Self::tags_spelled_26();
        Self::tags_spelled_27();
        Self::tags_spelled_30();
        Self::tags_spelled_31();
        Self::tags_spelled_32();
        Self::tags_spelled_34();
        Self::tags_spelled_35();
        Self::tags_spelled_39();
        Self::tags_spelled_40();
    }

    /// A document whose discriminator belongs to `PassportElementType` decodes through the envelope
    /// exactly as it decodes through `PassportElementType` itself.
    pub proof fn agrees_with_passport_element_type(d: Doc, at: Seq<char>)
        requires
            tag_of(d) is Some,
            PassportElementType::known(tag_of(d)->Some_0),
        ensures
            Self::parse(d, at) == PassportElementType::parse(d, at),
    {
        reveal(<Response as Wire>::parse);
        Self::routes_to_passport_element_type(tag_of(d)->Some_0);
    }

    /// A discriminator of `Date` belongs to the arm `Date`.
    pub proof fn routes_to_date(t: Seq<char>)
        requires
            Date::known(t),
        ensures
            Self::route(t) == 113,
    {
        reveal_strlit("date");
        assert("date"@.len() == 4);
        Self::tags_spelled_4();
    }

    /// A document whose discriminator belongs to `Date` decodes through the envelope exactly as it
    /// decodes through `Date` itself.
    pub proof fn agrees_with_date(d: Doc, at: Seq<char>)
        requires
            tag_of(d) is Some,
            Date::known(tag_of(d)->Some_0),
        ensures
            Self::parse(d, at) == Date::parse(d, at),
    {
        reveal(<Response as Wire>::parse);
        Self::routes_to_date(tag_of(d)->Some_0);
    }

    /// A discriminator of `PersonalDetails` belongs to the arm `PersonalDetails`.
    pub proof fn routes_to_personal_details(t: Seq<char>)
        requires
            PersonalDetails::known(t),
        ensures
            Self::route(t) == 114,
    {
        reveal_strlit("personalDetails");
        assert("personalDetails"@.len() == 15);
        Self::tags_spelled_15();
    }

    /// A document whose discriminator belongs to `PersonalDetails` decodes through the envelope
    /// exactly as it decodes through `PersonalDetails` itself.
    pub proof fn agrees_with_personal_details(d: Doc, at: Seq<char>)
        requires
            tag_of(d) is Some,
            PersonalDetails::known(tag_of(d)->Some_0),
        ensures
            Self::parse(d, at) == PersonalDetails::parse(d, at),
    {
        reveal(<Response as Wire>::parse);
        Self::routes_to_personal_details(tag_of(d)->Some_0);
    }

    /// A discriminator of `IdentityDocument` belongs to the arm `IdentityDocument`.
    pub proof fn routes_to_identity_document(t: Seq<char>)
        requires
            IdentityDocument::known(t),
        ensures
            Self::route(t) == 115,
    {
        reveal_strlit("identityDocument");
        assert("identityDocument"@.len() == 16);
        Self::tags_spelled_16();
    }

    /// A document whose discriminator belongs to `IdentityDocument` decodes through the envelope
    /// exactly as it decodes through `IdentityDocument` itself.
    pub proof fn agrees_with_identity_document(d: Doc, at: Seq<char>)
        requires
            tag_of(d) is Some,
            IdentityDocument::known(tag_of(d)->Some_0),
        ensures
            Self::parse(d, at) == IdentityDocument::parse(d, at),
    {
        reveal(<Response as Wire>::parse);
        Self::routes_to_identity_document(tag_of(d)->Some_0);
    }

    /// A discriminator of `InputIdentityDocument` belongs to the arm `InputIdentityDocument`.
    pub proof fn routes_to_input_identity_document(t: Seq<char>)
        requires
            InputIdentityDocument::known(t),
        ensures
            Self::route(t) == 116,
    {
        reveal_strlit("inputIdentityDocument");
        assert("inputIdentityDocument"@.len() == 21);
        Self::tags_spelled_21();
    }

    /// A document whose discriminator belongs to `InputIdentityDocument` decodes through the
    /// envelope exactly as it decodes through `InputIdentityDocument` itself.
    pub proof fn agrees_with_input_identity_document(d: Doc, at: Seq<char>)
        requires
            tag_of(d) is Some,
            InputIdentityDocument::known(tag_of(d)->Some_0),
        ensures
            Self::parse(d, at) == InputIdentityDocument::parse(d, at),
    {
        reveal(<Response as Wire>::parse);
        Self::routes_to_input_identity_document(tag_of(d)->Some_0);
    }

    /// A discriminator of `PersonalDocument` belongs to the arm `PersonalDocument`.
    pub proof fn routes_to_personal_document(t: Seq<char>)
        requires
            PersonalDocument::known(t),
        ensures
            Self::route(t) == 117,
    {
        reveal_strlit("personalDocument");
        assert("personalDocument"@.len() == 16);
        Self::tags_spelled_16();
    }

    /// A document whose discriminator belongs to `PersonalDocument` decodes through the envelope
    /// exactly as it decodes through `PersonalDocument` itself.
    pub proof fn agrees_with_personal_document(d: Doc, at: Seq<char>)
        requires
            tag_of(d) is Some,
            PersonalDocument::known(tag_of(d)->Some_0),
        ensures
            Self::parse(d, at) == PersonalDocument::parse(d, at),
    {
        reveal(<Response as Wire>::parse);
        Self::routes_to_personal_document(tag_of(d)->Some_0);
    }

    /// A discriminator of `InputPersonalDocument` belongs to the arm `InputPersonalDocument`.
    pub proof fn routes_to_input_personal_document(t: Seq<char>)
        requires
            InputPersonalDocument::known(t),
        ensures
            Self::route(t) == 118,
    {
        reveal_strlit("inputPersonalDocument");
        assert("inputPersonalDocument"@.len() == 21);
        Self::tags_spelled_21();
    }

    /// A document whose discriminator belongs to `InputPersonalDocument` decodes through the
    /// envelope exactly as it decodes through `InputPersonalDocument` itself.
    pub proof fn agrees_with_input_personal_document(d: Doc, at: Seq<char>)
        requires
            tag_of(d) is Some,
            InputPersonalDocument::known(tag_of(d)->Some_0),
        ensures
            Self::parse(d, at) == InputPersonalDocument::parse(d, at),
    {
        reveal(<Response as Wire>::parse);
        Self::routes_to_input_personal_document(tag_of(d)->Some_0);
    }

    /// A discriminator of `PassportElement` belongs to the arm `PassportElement`.
    pub proof fn routes_to_passport_element(t: Seq<char>)
        requires
            PassportElement::known(t),
        ensures
            Self::route(t) == 119,
    {
        reveal_strlit("passportElementPersonalDetails");
        reveal_strlit("passportElementPassport");
        reveal_strlit("passportElementDriverLicense");
        reveal_strlit("passportElementIdentityCard");
        reveal_strlit("passportElementInternalPassport");
        reveal_strlit("passportElementAddress");
        reveal_strlit("passportElementUtilityBill");
        reveal_strlit("passportElementBankStatement");
        reveal_strlit("passportElementRentalAgreement");
        reveal_strlit("passportElementPassportRegistration");
        reveal_strlit("passportElementTemporaryRegistration");
        reveal_strlit("passportElementPhoneNumber");
        reveal_strlit("passportElementEmailAddress");
        assert("passportElementPersonalDetails"@.len() == 30);
        assert("passportElementPassport"@.len() == 23);
        assert("passportElementDriverLicense"@.len() == 28);
        assert("passportElementIdentityCard"@.len() == 27);
        assert("passportElementInternalPassport"@.len() == 31);
        assert("passportElementAddress"@.len() == 22);
        assert("passportElementUtilityBill"@.len() == 26);
        assert("passportElementBankStatement"@.len() == 28);
        assert("passportElementRentalAgreement"@.len() == 30);
        assert("passportElementPassportRegistration"@.len() == 35);
        assert("passportElementTemporaryRegistration"@.len() == 36);
        assert("passportElementPhoneNumber"@.len() == 26);
        assert("passportElementEmailAddress"@.len() == 27);
        Self::tags_spelled_22();
        Self::tags_spelled_23();
        Self::tags_spelled_26();
        Self::tags_spelled_27();
        Self::tags_spelled_28();
        Self::tags_spelled_30();
        Self::tags_spelled_31();
        Self::tags_spelled_35();
        Self::tags_spelled_36();
    }

    /// A document whose discriminator belongs to `PassportElement` decodes through the envelope
    /// exactly as it decodes through `PassportElement` itself.
    pub proof fn agrees_with_passport_element(d: Doc, at: Seq<char>)
        requires
            tag_of(d) is Some,
            PassportElement::known(tag_of(d)->Some_0),
        ensures
            Self::parse(d, at) == PassportElement::parse(d, at),
    {
        reveal(<Response as Wire>::parse);
        Self::routes_to_passport_element(tag_of(d)->Some_0);
    }

    /// A discriminator of `InputPassportElement` belongs to the arm `InputPassportElement`.
    pub proof fn routes_to_input_passport_element(t: Seq<char>)
        requires
            InputPassportElement::known(t),
        ensures
            Self::route(t) == 120,
    {
        reveal_strlit("inputPassportElementPersonalDetails");
        reveal_strlit("inputPassportElementPassport");
        reveal_strlit("inputPassportElementDriverLicense");
        reveal_strlit("inputPassportElementIdentityCard");
        reveal_strlit("inputPassportElementInternalPassport");
        reveal_strlit("inputPassportElementAddress");
        reveal_strlit("inputPassportElementUtilityBill");
        reveal_strlit("inputPassportElementBankStatement");
        reveal_strlit("inputPassportElementRentalAgreement");
        reveal_strlit("inputPassportElementPassportRegistration");
        reveal_strlit("inputPassportElementTemporaryRegistration");
        reveal_strlit("inputPassportElementPhoneNumber");
        reveal_strlit("inputPassportElementEmailAddress");
        assert("inputPassportElementPersonalDetails"@.len() == 35);
        assert("inputPassportElementPassport"@.len() == 28);
        assert("inputPassportElementDriverLicense"@.len() == 33);
        assert("inputPassportElementIdentityCard"@.len() == 32);
        assert("inputPassportElementInternalPassport"@.len() == 36);
        assert("inputPassportElementAddress"@.len() == 27);
        assert("inputPassportElementUtilityBill"@.len() == 31);
        assert("inputPassportElementBankStatement"@.len() == 33);
        assert("inputPassportElementRentalAgreement"@.len() == 35);
        assert("inputPassportElementPassportRegistration"@.len() == 40);
        assert("inputPassportElementTemporaryRegistration"@.len() == 41);
        assert("inputPassportElementPhoneNumber"@.len() == 31);
        assert("inputPassportElementEmailAddress"@.len() == 32);
        Self::tags_spelled_27();
        Self::tags_spelled_28();
        Self::tags_spelled_31();
        Self::tags_spelled_32();
        Self::tags_spelled_33();
        Self::tags_spelled_35();
        Self::tags_spelled_36();
        Self::tags_spelled_40();
        Self::tags_spelled_41();
    }

    /// A document whose discriminator belongs to `InputPassportElement` decodes through the
    /// envelope exactly as it decodes through `InputPassportElement` itself.
    pub proof fn agrees_with_input_passport_element(d: Doc, at: Seq<char>)
        requires
            tag_of(d) is Some,
            InputPassportElement::known(tag_of(d)->Some_0),
        ensures
            Self::parse(d, at) == InputPassportElement::parse(d, at),
    {
        reveal(<Response as Wire>::parse);
        Self::routes_to_input_passport_element(tag_of(d)->Some_0);
    }

    /// A discriminator of `PassportElements` belongs to the arm `PassportElements`.
    pub proof fn routes_to_passport_elements(t: Seq<char>)
        requires
            PassportElements::known(t),
        ensures
            Self::route(t) == 121,
    {
        reveal_strlit("passportElements");
        assert("passportElements"@.len() == 16);
        Self::tags_spelled_16();
    }

    /// A document whose discriminator belongs to `PassportElements` decodes through the envelope
    /// exactly as it decodes through `PassportElements` itself.
    pub proof fn agrees_with_passport_elements(d: Doc, at: Seq<char>)
        requires
            tag_of(d) is Some,
            PassportElements::known(tag_of(d)->Some_0),
        ensures
            Self::parse(d, at) == PassportElements::parse(d, at),
    {
        reveal(<Response as Wire>::parse);
        Self::routes_to_passport_elements(tag_of(d)->Some_0);
    }

    /// A discriminator of `PassportElementErrorSource` belongs to the arm `PassportElementErrorSource`.
    pub proof fn routes_to_passport_element_error_source(t: Seq<char>)
        requires
            PassportElementErrorSource::known(t),
        ensures
            Self::route(t) == 122,
    {
        reveal_strlit("passportElementErrorSourceUnspecified");
        reveal_strlit("passportElementErrorSourceDataField");
        reveal_strlit("passportElementErrorSourceFrontSide");
        reveal_strlit("passportElementErrorSourceReverseSide");
        reveal_strlit("passportElementErrorSourceSelfie");
        reveal_strlit("passportElementErrorSourceTranslationFile");
        reveal_strlit("passportElementErrorSourceTranslationFiles");
        reveal_strlit("passportElementErrorSourceFile");
        reveal_strlit("passportElementErrorSourceFiles");
        assert("passportElementErrorSourceUnspecified"@.len() == 37);
        assert("passportElementErrorSourceDataField"@.len() == 35);
        assert("passportElementErrorSourceFrontSide"@.len() == 35);
        assert("passportElementErrorSourceReverseSide"@.len() == 37);
        assert("passportElementErrorSourceSelfie"@.len() == 32);
        assert("passportElementErrorSourceTranslationFile"@.len() == 41);
        assert("passportElementErrorSourceTranslationFiles"@.len() == 42);
        assert("passportElementErrorSourceFile"@.len() == 30);
        assert("passportElementErrorSourceFiles"@.len() == 31);
        Self::tags_spelled_30();
        Self::tags_spelled_31();
        Self::tags_spelled_32();
        Self::tags_spelled_35();
        Self::tags_spelled_37();
        Self::tags_spelled_41();
        Self::tags_spelled_42();
    }

    /// A document whose discriminator belongs to `PassportElementErrorSource` decodes through the
    /// envelope exactly as it decodes through `PassportElementErrorSource` itself.
    pub proof fn agrees_with_passport_element_error_source(d: Doc, at: Seq<char>)
        requires
            tag_of(d) is Some,
            PassportElementErrorSource::known(tag_of(d)->Some_0),
        ensures
            Self::parse(d, at) == PassportElementErrorSource::parse(d, at),
    {
        reveal(<Response as Wire>::parse);
        Self::routes_to_passport_element_error_source(tag_of(d)->Some_0);
    }

    /// A discriminator of `PassportElementError` belongs to the arm `PassportElementError`.
    pub proof fn routes_to_passport_element_error(t: Seq<char>)
        requires
            PassportElementError::known(t),
        ensures
            Self::route(t) == 123,
    {
        reveal_strlit("passportElementError");
        assert("passportElementError"@.len() == 20);
        Self::tags_spelled_20();
    }

    /// A document whose discriminator belongs to `PassportElementError` decodes through the
    /// envelope exactly as it decodes through `PassportElementError` itself.
    pub proof fn agrees_with_passport_element_error(d: Doc, at: Seq<char>)
        requires
            tag_of(d) is Some,
            PassportElementError::known(tag_of(d)->Some_0),
        ensures
            Self::parse(d, at) == PassportElementError::parse(d, at),
    {
        reveal(<Response as Wire>::parse);
        Self::routes_to_passport_element_error(tag_of(d)->Some_0);
    }

    /// A discriminator of `PassportSuitableElement` belongs to the arm `PassportSuitableElement`.
    pub proof fn routes_to_passport_suitable_element(t: Seq<char>)
        requires
            PassportSuitableElement::known(t),
        ensures
            Self::route(t) == 124,
    {
        reveal_strlit("passportSuitableElement");
        assert("passportSuitableElement"@.len() == 23);
        Self::tags_spelled_23();
    }

    /// A document whose discriminator belongs to `PassportSuitableElement` decodes through the
    /// envelope exactly as it decodes through `PassportSuitableElement` itself.
    pub proof fn agrees_with_passport_suitable_element(d: Doc, at: Seq<char>)
        requires
            tag_of(d) is Some,
            PassportSuitableElement::known(tag_of(d)->Some_0),
        ensures
            Self::parse(d, at) == PassportSuitableElement::parse(d, at),
    {
        reveal(<Response as Wire>::parse);
        Self::routes_to_passport_suitable_element(tag_of(d)->Some_0);
    }

    /// A discriminator of `PassportRequiredElement` belongs to the arm `PassportRequiredElement`.
    pub proof fn routes_to_passport_required_element(t: Seq<char>)
        requires
            PassportRequiredElement::known(t),
        ensures
            Self::route(t) == 125,
    {
        reveal_strlit("passportRequiredElement");
        assert("passportRequiredElement"@.len() == 23);
        Self::tags_spelled_23();
    }

    /// A document whose discriminator belongs to `PassportRequiredElement` decodes through the
    /// envelope exactly as it decodes through `PassportRequiredElement` itself.
    pub proof fn agrees_with_passport_required_element(d: Doc, at: Seq<char>)
        requires
            tag_of(d) is Some,
            PassportRequiredElement::known(tag_of(d)->Some_0),
        ensures
            Self::parse(d, at) == PassportRequiredElement::parse(d, at),
    {
        reveal(<Response as Wire>::parse);
        Self::routes_to_passport_required_element(tag_of(d)->Some_0);
    }

    /// A discriminator of `PassportAuthorizationForm` belongs to the arm `PassportAuthorizationForm`.
    pub proof fn routes_to_passport_authorization_form(t: Seq<char>)
        requires
            PassportAuthorizationForm::known(t),
        ensures
            Self::route(t) == 126,
    {
        reveal_strlit("passportAuthorizationForm");
        assert("passportAuthorizationForm"@.len() == 25);
        Self::tags_spelled_25();
    }

    /// A document whose discriminator belongs to `PassportAuthorizationForm` decodes through the
    /// envelope exactly as it decodes through `PassportAuthorizationForm` itself.
    pub proof fn agrees_with_passport_authorization_form(d: Doc, at: Seq<char>)
        requires
            tag_of(d) is Some,
            PassportAuthorizationForm::known(tag_of(d)->Some_0),
        ensures
            Self::parse(d, at) == PassportAuthorizationForm::parse(d, at),
    {
        reveal(<Response as Wire>::parse);
        Self::routes_to_passport_authorization_form(tag_of(d)->Some_0);
    }

    /// A discriminator of `PassportElementsWithErrors` belongs to the arm `PassportElementsWithErrors`.
    pub proof fn routes_to_passport_elements_with_errors(t: Seq<char>)
        requires
            PassportElementsWithErrors::known(t),
        ensures
            Self::route(t) == 127,
    {
        reveal_strlit("passportElementsWithErrors");
        assert("passportElementsWithErrors"@.len() == 26);
        Self::tags_spelled_26();
    }

    /// A document whose discriminator belongs to `PassportElementsWithErrors` decodes through the
    /// envelope exactly as it decodes through `PassportElementsWithErrors` itself.
    pub proof fn agrees_with_passport_elements_with_errors(d: Doc, at: Seq<char>)
        requires
            tag_of(d) is Some,
            PassportElementsWithErrors::known(tag_of(d)->Some_0),
        ensures
            Self::parse(d, at) == PassportElementsWithErrors::parse(d, at),
    {
        reveal(<Response as Wire>::parse);
        Self::routes_to_passport_elements_with_errors(tag_of(d)->Some_0);
    }

    /// A discriminator of `EncryptedCredentials` belongs to the arm `EncryptedCredentials`.
    pub proof fn routes_to_encrypted_credentials(t: Seq<char>)
        requires
            EncryptedCredentials::known(t),
        ensures
            Self::route(t) == 128,
    {
        reveal_strlit("encryptedCredentials");
        assert("encryptedCredentials"@.len() == 20);
        Self::tags_spelled_20();
    }

    /// A document whose discriminator belongs to `EncryptedCredentials` decodes through the
    /// envelope exactly as it decodes through `EncryptedCredentials` itself.
    pub proof fn agrees_with_encrypted_credentials(d: Doc, at: Seq<char>)
        requires
            tag_of(d) is Some,
            EncryptedCredentials::known(tag_of(d)->Some_0),
        ensures
            Self::parse(d, at) == EncryptedCredentials::parse(d, at),
    {
        reveal(<Response as Wire>::parse);
        Self::routes_to_encrypted_credentials(tag_of(d)->Some_0);
    }

    /// A discriminator of `EncryptedPassportElement` belongs to the arm `EncryptedPassportElement`.
    pub proof fn routes_to_encrypted_passport_element(t: Seq<char>)
        requires
            EncryptedPassportElement::known(t),
        ensures
            Self::route(t) == 129,
    {
        reveal_strlit("encryptedPassportElement");
        assert("encryptedPassportElement"@.len() == 24);
        Self::tags_spelled_24();
    }

    /// A document whose discriminator belongs to `EncryptedPassportElement` decodes through the
    /// envelope exactly as it decodes through `EncryptedPassportElement` itself.
    pub proof fn agrees_with_encrypted_passport_element(d: Doc, at: Seq<char>)
        requires
            tag_of(d) is Some,
            EncryptedPassportElement::known(tag_of(d)->Some_0),
        ensures
            Self::parse(d, at) == EncryptedPassportElement::parse(d, at),
    {
        reveal(<Response as Wire>::parse);
        Self::routes_to_encrypted_passport_element(tag_of(d)->Some_0);
    }

    /// A discriminator of `InputPassportElementErrorSource` belongs to the arm `InputPassportElementErrorSource`.
    pub proof fn routes_to_input_passport_element_error_source(t: Seq<char>)
        requires
            InputPassportElementErrorSource::known(t),
        ensures
            Self::route(t) == 130,
    {
        reveal_strlit("inputPassportElementErrorSourceUnspecified");
        reveal_strlit("inputPassportElementErrorSourceDataField");
        reveal_strlit("inputPassportElementErrorSourceFrontSide");
        reveal_strlit("inputPassportElementErrorSourceReverseSide");
        reveal_strlit("inputPassportElementErrorSourceSelfie");
        reveal_strlit("inputPassportElementErrorSourceTranslationFile");
        reveal_strlit("inputPassportElementErrorSourceTranslationFiles");
        reveal_strlit("inputPassportElementErrorSourceFile");
        reveal_strlit("inputPassportElementErrorSourceFiles");
        assert("inputPassportElementErrorSourceUnspecified"@.len() == 42);
        assert("inputPassportElementErrorSourceDataField"@.len() == 40);
        assert("inputPassportElementErrorSourceFrontSide"@.len() == 40);
        assert("inputPassportElementErrorSourceReverseSide"@.len() == 42);
        assert("inputPassportElementErrorSourceSelfie"@.len() == 37);
        assert("inputPassportElementErrorSourceTranslationFile"@.len() == 46);
        assert("inputPassportElementErrorSourceTranslationFiles"@.len() == 47);
        assert("inputPassportElementErrorSourceFile"@.len() == 35);
        assert("inputPassportElementErrorSourceFiles"@.len() == 36);
        Self::tags_spelled_35();
        Self::tags_spelled_36();
        Self::tags_spelled_37();
        Self::tags_spelled_40();
        Self::tags_spelled_42();
        Self::tags_spelled_46();
    }

    /// A document whose discriminator belongs to `InputPassportElementErrorSource` decodes through
    /// the envelope exactly as it decodes through `InputPassportElementErrorSource` itself.
    pub proof fn agrees_with_input_passport_element_error_source(d: Doc, at: Seq<char>)
        requires
            tag_of(d) is Some,
            InputPassportElementErrorSource::known(tag_of(d)->Some_0),
        ensures
            Self::parse(d, at) == InputPassportElementErrorSource::parse(d, at),
    {
        reveal(<Response as Wire>::parse);
        Self::routes_to_input_passport_element_error_source(tag_of(d)->Some_0);
    }

    /// A discriminator of `InputPassportElementError` belongs to the arm `InputPassportElementError`.
    pub proof fn routes_to_input_passport_element_error(t: Seq<char>)
        requires
            InputPassportElementError::known(t),
        ensures
            Self::route(t) == 131,
    {
        reveal_strlit("inputPassportElementError");
        assert("inputPassportElementError"@.len() == 25);
        Self::tags_spelled_25();
    }

    /// A document whose discriminator belongs to `InputPassportElementError` decodes through the
    /// envelope exactly as it decodes through `InputPassportElementError` itself.
    pub proof fn agrees_with_input_passport_element_error(d: Doc, at: Seq<char>)
        requires
            tag_of(d) is Some,
            InputPassportElementError::known(tag_of(d)->Some_0),
        ensures
            Self::parse(d, at) == InputPassportElementError::parse(d, at),
    {
        reveal(<Response as Wire>::parse);
        Self::routes_to_input_passport_element_error(tag_of(d)->Some_0);
    }

    /// A discriminator of `MessageContent` belongs to the arm `MessageContent`.
    pub proof fn routes_to_message_content(t: Seq<char>)
        requires
            MessageContent::known(t),
        ensures
            Self::route(t) == 132,
    {
        reveal_strlit("messageText");
        reveal_strlit("messageAnimation");
        reveal_strlit("messageAudio");
        reveal_strlit("messageDocument");
        reveal_strlit("messagePhoto");
        reveal_strlit("messageExpiredPhoto");
        reveal_strlit("messageSticker");
        reveal_strlit("messageVideo");
        reveal_strlit("messageExpiredVideo");
        reveal_strlit("messageVideoNote");
        reveal_strlit("messageVoiceNote");
        reveal_strlit("messageLocation");
        reveal_strlit("messageVenue");
        reveal_strlit("messageContact");
        reveal_strlit("messageGame");
        reveal_strlit("messagePoll");
        reveal_strlit("messageInvoice");
        reveal_strlit("messageCall");
        reveal_strlit("messageBasicGroupChatCreate");
        reveal_strlit("messageSupergroupChatCreate");
        reveal_strlit("messageChatChangeTitle");
        reveal_strlit("messageChatChangePhoto");
        reveal_strlit("messageChatDeletePhoto");
        reveal_strlit("messageChatAddMembers");
        reveal_strlit("messageChatJoinByLink");
        reveal_strlit("messageChatDeleteMember");
        reveal_strlit("messageChatUpgradeTo");
        reveal_strlit("messageChatUpgradeFrom");
        reveal_strlit("messagePinMessage");
        reveal_strlit("messageScreenshotTaken");
        reveal_strlit("messageChatSetTtl");
        reveal_strlit("messageCustomServiceAction");
        reveal_strlit("messageGameScore");
        reveal_strlit("messagePaymentSuccessful");
        reveal_strlit("messagePaymentSuccessfulBot");
        reveal_strlit("messageContactRegistered");
        reveal_strlit("messageWebsiteConnected");
        reveal_strlit("messagePassportDataSent");
        reveal_strlit("messagePassportDataReceived");
        reveal_strlit("messageUnsupported");
        assert("messageText"@.len() == 11);
        assert("messageAnimation"@.len() == 16);
        assert("messageAudio"@.len() == 12);
        assert("messageDocument"@.len() == 15);
        assert("messagePhoto"@.len() == 12);
        assert("messageExpiredPhoto"@.len() == 19);
        assert("messageSticker"@.len() == 14);
        assert("messageVideo"@.len() == 12);
        assert("messageExpiredVideo"@.len() == 19);
        assert("messageVideoNote"@.len() == 16);
        assert("messageVoiceNote"@.len() == 16);
        assert("messageLocation"@.len() == 15);
        assert("messageVenue"@.len() == 12);
        assert("messageContact"@.len() == 14);
        assert("messageGame"@.len() == 11);
        assert("messagePoll"@.len() == 11);
        assert("messageInvoice"@.len() == 14);
        assert("messageCall"@.len() == 11);
        assert("messageBasicGroupChatCreate"@.len() == 27);
        assert("messageSupergroupChatCreate"@.len() == 27);
        assert("messageChatChangeTitle"@.len() == 22);
        assert("messageChatChangePhoto"@.len() == 22);
        assert("messageChatDeletePhoto"@.len() == 22);
        assert("messageChatAddMembers"@.len() == 21);
        assert("messageChatJoinByLink"@.len() == 21);
        assert("messageChatDeleteMember"@.len() == 23);
        assert("messageChatUpgradeTo"@.len() == 20);
        assert("messageChatUpgradeFrom"@.len() == 22);
        assert("messagePinMessage"@.len() == 17);
        assert("messageScreenshotTaken"@.len() == 22);
        assert("messageChatSetTtl"@.len() == 17);
        assert("messageCustomServiceAction"@.len() == 26);
        assert("messageGameScore"@.len() == 16);
        assert("messagePaymentSuccessful"@.len() == 24);
        assert("messagePaymentSuccessfulBot"@.len() == 27);
        assert("messageContactRegistered"@.len() == 24);
        assert("messageWebsiteConnected"@.len() == 23);
        assert("messagePassportDataSent"@.len() == 23);
        assert("messagePassportDataReceived"@.len() == 27);
        assert("messageUnsupported"@.len() == 18);
        Self::tags_spelled_11();
        Self::tags_spelled_12();
        Self::tags_spelled_14();
        Self::tags_spelled_15();
        Self::tags_spelled_16();
        Self::tags_spelled_17();
        Self::tags_spelled_18();
        Self::tags_spelled_19();
        Self::tags_spelled_20();
        Self::tags_spelled_21();
        Self::tags_spelled_22();
        Self::tags_spelled_23();
        Self::tags_spelled_24();
        Self::tags_spelled_26();
        Self::tags_spelled_27();
    }

    /// A document whose discriminator belongs to `MessageContent` decodes through the envelope
    /// exactly as it decodes through `MessageContent` itself.
    pub proof fn agrees_with_message_content(d: Doc, at: Seq<char>)
        requires
            tag_of(d) is Some,
            MessageContent::known(tag_of(d)->Some_0),
        ensures
            Self::parse(d, at) == MessageContent::parse(d, at),
    {
        reveal(<Response as Wire>::parse);
        Self::routes_to_message_content(tag_of(d)->Some_0);
    }

    /// A discriminator of `TextEntityType` belongs to the arm `TextEntityType`.
    pub proof fn routes_to_text_entity_type(t: Seq<char>)
        requires
            TextEntityType::known(t),
        ensures
            Self::route(t) == 133,
    {
        reveal_strlit("textEntityTypeMention");
        reveal_strlit("textEntityTypeHashtag");
        reveal_strlit("textEntityTypeCashtag");
        reveal_strlit("textEntityTypeBotCommand");
        reveal_strlit("textEntityTypeUrl");
        reveal_strlit("textEntityTypeEmailAddress");
        reveal_strlit("textEntityTypePhoneNumber");
        reveal_strlit("textEntityTypeBold");
        reveal_strlit("textEntityTypeItalic");
        reveal_strlit("textEntityTypeUnderline");
        reveal_strlit("textEntityTypeStrikethrough");
        reveal_strlit("textEntityTypeCode");
        reveal_strlit("textEntityTypePre");
        reveal_strlit("textEntityTypePreCode");
        reveal_strlit("textEntityTypeTextUrl");
        reveal_strlit("textEntityTypeMentionName");
        assert("textEntityTypeMention"@.len() == 21);
        assert("textEntityTypeHashtag"@.len() == 21);
        assert("textEntityTypeCashtag"@.len() == 21);
        assert("textEntityTypeBotCommand"@.len() == 24);
        assert("textEntityTypeUrl"@.len() == 17);
        assert("textEntityTypeEmailAddress"@.len() == 26);
        assert("textEntityTypePhoneNumber"@.len() == 25);
        assert("textEntityTypeBold"@.len() == 18);
        assert("textEntityTypeItalic"@.len() == 20);
        assert("textEntityTypeUnderline"@.len() == 23);
        assert("textEntityTypeStrikethrough"@.len() == 27);
        assert("textEntityTypeCode"@.len() == 18);
        assert("textEntityTypePre"@.len() == 17);
        assert("textEntityTypePreCode"@.len() == 21);
        assert("textEntityTypeTextUrl"@.len() == 21);
        assert("textEntityTypeMentionName"@.len() == 25);
        Self::tags_spelled_17();
        Self::tags_spelled_18();
        Self::tags_spelled_20();
        Self::tags_spelled_21();
        Self::tags_spelled_23();
        Self::tags_spelled_24();
        Self::tags_spelled_25();
        Self::tags_spelled_26();
        Self::tags_spelled_27();
    }

    /// A document whose discriminator belongs to `TextEntityType` decodes through the envelope
    /// exactly as it decodes through `TextEntityType` itself.
    pub proof fn agrees_with_text_entity_type(d: Doc, at: Seq<char>)
        requires
            tag_of(d) is Some,
            TextEntityType::known(tag_of(d)->Some_0),
        ensures
            Self::parse(d, at) == TextEntityType::parse(d, at),
    {
        reveal(<Response as Wire>::parse);
        Self::routes_to_text_entity_type(tag_of(d)->Some_0);
    }

    /// A discriminator of `InputThumbnail` belongs to the arm `InputThumbnail`.
    pub proof fn routes_to_input_thumbnail(t: Seq<char>)
        requires
            InputThumbnail::known(t),
        ensures
            Self::route(t) == 134,
    {
        reveal_strlit("inputThumbnail");
        assert("inputThumbnail"@.len() == 14);
        Self::tags_spelled_14();
    }

    /// A document whose discriminator belongs to `InputThumbnail` decodes through the envelope
    /// exactly as it decodes through `InputThumbnail` itself.
    pub proof fn agrees_with_input_thumbnail(d: Doc, at: Seq<char>)
        requires
            tag_of(d) is Some,
            InputThumbnail::known(tag_of(d)->Some_0),
        ensures
            Self::parse(d, at) == InputThumbnail::parse(d, at),
    {
        reveal(<Response as Wire>::parse);
        Self::routes_to_input_thumbnail(tag_of(d)->Some_0);
    }

    /// A discriminator of `MessageSchedulingState` belongs to the arm `MessageSchedulingState`.
    pub proof fn routes_to_message_scheduling_state(t: Seq<char>)
        requires
            MessageSchedulingState::known(t),
        ensures
            Self::route(t) == 135,
    {
        reveal_strlit("messageSchedulingStateSendAtDate");
        reveal_strlit("messageSchedulingStateSendWhenOnline");
        assert("messageSchedulingStateSendAtDate"@.len() == 32);
        assert("messageSchedulingStateSendWhenOnline"@.len() == 36);
        Self::tags_spelled_32();
        Self::tags_spelled_36();
    }

    /// A document whose discriminator belongs to `MessageSchedulingState` decodes through the
    /// envelope exactly as it decodes through `MessageSchedulingState` itself.
    pub proof fn agrees_with_message_scheduling_state(d: Doc, at: Seq<char>)
        requires
            tag_of(d) is Some,
            MessageSchedulingState::known(tag_of(d)->Some_0),
        ensures
            Self::parse(d, at) == MessageSchedulingState::parse(d, at),
    {
        reveal(<Response as Wire>::parse);
        Self::routes_to_message_scheduling_state(tag_of(d)->Some_0);
    }

    /// A discriminator of `SendMessageOptions` belongs to the arm `SendMessageOptions`.
    pub proof fn routes_to_send_message_options(t: Seq<char>)
        requires
            SendMessageOptions::known(t),
        ensures
            Self::route(t) == 136,
    {
        reveal_strlit("sendMessageOptions");
        assert("sendMessageOptions"@.len() == 18);
        Self::tags_spelled_18();
    }

    /// A document whose discriminator belongs to `SendMessageOptions` decodes through the envelope
    /// exactly as it decodes through `SendMessageOptions` itself.
    pub proof fn agrees_with_send_message_options(d: Doc, at: Seq<char>)
        requires
            tag_of(d) is Some,
            SendMessageOptions::known(tag_of(d)->Some_0),
        ensures
            Self::parse(d, at) == SendMessageOptions::parse(d, at),
    {
        reveal(<Response as Wire>::parse);
        Self::routes_to_send_message_options(tag_of(d)->Some_0);
    }

    /// A discriminator of `InputMessageContent` belongs to the arm `InputMessageContent`.
    pub proof fn routes_to_input_message_content(t: Seq<char>)
        requires
            InputMessageContent::known(t),
        ensures
            Self::route(t) == 137,
    {
        reveal_strlit("inputMessageText");
        reveal_strlit("inputMessageAnimation");
        reveal_strlit("inputMessageAudio");
        reveal_strlit("inputMessageDocument");
        reveal_strlit("inputMessagePhoto");
        reveal_strlit("inputMessageSticker");
        reveal_strlit("inputMessageVideo");
        reveal_strlit("inputMessageVideoNote");
        reveal_strlit("inputMessageVoiceNote");
        reveal_strlit("inputMessageLocation");
        reveal_strlit("inputMessageVenue");
        reveal_strlit("inputMessageContact");
        reveal_strlit("inputMessageGame");
        reveal_strlit("inputMessageInvoice");
        reveal_strlit("inputMessagePoll");
        reveal_strlit("inputMessageForwarded");
        assert("inputMessageText"@.len() == 16);
        assert("inputMessageAnimation"@.len() == 21);
        assert("inputMessageAudio"@.len() == 17);
        assert("inputMessageDocument"@.len() == 20);
        assert("inputMessagePhoto"@.len() == 17);
        assert("inputMessageSticker"@.len() == 19);
        assert("inputMessageVideo"@.len() == 17);
        assert("inputMessageVideoNote"@.len() == 21);
        assert("inputMessageVoiceNote"@.len() == 21);
        assert("inputMessageLocation"@.len() == 20);
        assert("inputMessageVenue"@.len() == 17);
        assert("inputMessageContact"@.len() == 19);
        assert("inputMessageGame"@.len() == 16);
        assert("inputMessageInvoice"@.len() == 19);
        assert("inputMessagePoll"@.len() == 16);
        assert("inputMessageForwarded"@.len() == 21);
        Self::tags_spelled_16();
        Self::tags_spelled_17();
        Self::tags_spelled_19();
        Self::tags_spelled_20();
        Self::tags_spelled_21();
    }

    /// A document whose discriminator belongs to `InputMessageContent` decodes through the envelope
    /// exactly as it decodes through `InputMessageContent` itself.
    pub proof fn agrees_with_input_message_content(d: Doc, at: Seq<char>)
        requires
            tag_of(d) is Some,
            InputMessageContent::known(tag_of(d)->Some_0),
        ensures
            Self::parse(d, at) == InputMessageContent::parse(d, at),
    {
        reveal(<Response as Wire>::parse);
        Self::routes_to_input_message_content(tag_of(d)->Some_0);
    }

    /// A discriminator of `SearchMessagesFilter` belongs to the arm `SearchMessagesFilter`.
    pub proof fn routes_to_search_messages_filter(t: Seq<char>)
        requires
            SearchMessagesFilter::known(t),
        ensures
            Self::route(t) == 138,
    {
        reveal_strlit("searchMessagesFilterEmpty");
        reveal_strlit("searchMessagesFilterAnimation");
        reveal_strlit("searchMessagesFilterAudio");
        reveal_strlit("searchMessagesFilterDocument");
        reveal_strlit("searchMessagesFilterPhoto");
        reveal_strlit("searchMessagesFilterVideo");
        reveal_strlit("searchMessagesFilterVoiceNote");
        reveal_strlit("searchMessagesFilterPhotoAndVideo");
        reveal_strlit("searchMessagesFilterUrl");
        reveal_strlit("searchMessagesFilterChatPhoto");
        reveal_strlit("searchMessagesFilterCall");
        reveal_strlit("searchMessagesFilterMissedCall");
        reveal_strlit("searchMessagesFilterVideoNote");
        reveal_strlit("searchMessagesFilterVoiceAndVideoNote");
        reveal_strlit("searchMessagesFilterMention");
        reveal_strlit("searchMessagesFilterUnreadMention");
        assert("searchMessagesFilterEmpty"@.len() == 25);
        assert("searchMessagesFilterAnimation"@.len() == 29);
        assert("searchMessagesFilterAudio"@.len() == 25);
        assert("searchMessagesFilterDocument"@.len() == 28);
        assert("searchMessagesFilterPhoto"@.len() == 25);
        assert("searchMessagesFilterVideo"@.len() == 25);
        assert("searchMessagesFilterVoiceNote"@.len() == 29);
        assert("searchMessagesFilterPhotoAndVideo"@.len() == 33);
        assert("searchMessagesFilterUrl"@.len() == 23);
        assert("searchMessagesFilterChatPhoto"@.len() == 29);
        assert("searchMessagesFilterCall"@.len() == 24);
        assert("searchMessagesFilterMissedCall"@.len() == 30);
        assert("searchMessagesFilterVideoNote"@.len() == 29);
        assert("searchMessagesFilterVoiceAndVideoNote"@.len() == 37);
        assert("searchMessagesFilterMention"@.len() == 27);
        assert("searchMessagesFilterUnreadMention"@.len() == 33);
        Self::tags_spelled_23();
        Self::tags_spelled_24();
        Self::tags_spelled_25();
        Self::tags_spelled_27();
        Self::tags_spelled_28();
        Self::tags_spelled_29();
        Self::tags_spelled_30();
        Self::tags_spelled_33();
        Self::tags_spelled_37();
    }

    /// A document whose discriminator belongs to `SearchMessagesFilter` decodes through the
    /// envelope exactly as it decodes through `SearchMessagesFilter` itself.
    pub proof fn agrees_with_search_messages_filter(d: Doc, at: Seq<char>)
        requires
            tag_of(d) is Some,
            SearchMessagesFilter::known(tag_of(d)->Some_0),
        ensures
            Self::parse(d, at) == SearchMessagesFilter::parse(d, at),
    {
        reveal(<Response as Wire>::parse);
        Self::routes_to_search_messages_filter(tag_of(d)->Some_0);
    }

    /// A discriminator of `ChatAction` belongs to the arm `ChatAction`.
    pub proof fn routes_to_chat_action(t: Seq<char>)
        requires
            ChatAction::known(t),
        ensures
            Self::route(t) == 139,
    {
        reveal_strlit("chatActionTyping");
        reveal_strlit("chatActionRecordingVideo");
        reveal_strlit("chatActionUploadingVideo");
        reveal_strlit("chatActionRecordingVoiceNote");
        reveal_strlit("chatActionUploadingVoiceNote");
        reveal_strlit("chatActionUploadingPhoto");
        reveal_strlit("chatActionUploadingDocument");
        reveal_strlit("chatActionChoosingLocation");
        reveal_strlit("chatActionChoosingContact");
        reveal_strlit("chatActionStartPlayingGame");
        reveal_strlit("chatActionRecordingVideoNote");
        reveal_strlit("chatActionUploadingVideoNote");
        reveal_strlit("chatActionCancel");
        assert("chatActionTyping"@.len() == 16);
        assert("chatActionRecordingVideo"@.len() == 24);
        assert("chatActionUploadingVideo"@.len() == 24);
        assert("chatActionRecordingVoiceNote"@.len() == 28);
        assert("chatActionUploadingVoiceNote"@.len() == 28);
        assert("chatActionUploadingPhoto"@.len() == 24);
        assert("chatActionUploadingDocument"@.len() == 27);
        assert("chatActionChoosingLocation"@.len() == 26);
        assert("chatActionChoosingContact"@.len() == 25);
        assert("chatActionStartPlayingGame"@.len() == 26);
        assert("chatActionRecordingVideoNote"@.len() == 28);
        assert("chatActionUploadingVideoNote"@.len() == 28);
        assert("chatActionCancel"@.len() == 16);
        Self::tags_spelled_16();
        Self::tags_spelled_24();
        Self::tags_spelled_25();
        Self::tags_spelled_26();
        Self::tags_spelled_27();
        Self::tags_spelled_28();
    }

    /// A document whose discriminator belongs to `ChatAction` decodes through the envelope exactly
    /// as it decodes through `ChatAction` itself.
    pub proof fn agrees_with_chat_action(d: Doc, at: Seq<char>)
        requires
            tag_of(d) is Some,
            ChatAction::known(tag_of(d)->Some_0),
        ensures
            Self::parse(d, at) == ChatAction::parse(d, at),
    {
        reveal(<Response as Wire>::parse);
        Self::routes_to_chat_action(tag_of(d)->Some_0);
    }

    /// A discriminator of `UserStatus` belongs to the arm `UserStatus`.
    pub proof fn routes_to_user_status(t: Seq<char>)
        requires
            UserStatus::known(t),
        ensures
            Self::route(t) == 140,
    {
        reveal_strlit("userStatusEmpty");
        reveal_strlit("userStatusOnline");
        reveal_strlit("userStatusOffline");
        reveal_strlit("userStatusRecently");
        reveal_strlit("userStatusLastWeek");
        reveal_strlit("userStatusLastMonth");
        assert("userStatusEmpty"@.len() == 15);
        assert("userStatusOnline"@.len() == 16);
        assert("userStatusOffline"@.len() == 17);
        assert("userStatusRecently"@.len() == 18);
        assert("userStatusLastWeek"@.len() == 18);
        assert("userStatusLastMonth"@.len() == 19);
        Self::tags_spelled_15();
        Self::tags_spelled_16();
        Self::tags_spelled_17();
        Self::tags_spelled_18();
        Self::tags_spelled_19();
    }

    /// A document whose discriminator belongs to `UserStatus` decodes through the envelope exactly
    /// as it decodes through `UserStatus` itself.
    pub proof fn agrees_with_user_status(d: Doc, at: Seq<char>)
        requires
            tag_of(d) is Some,
            UserStatus::known(tag_of(d)->Some_0),
        ensures
            Self::parse(d, at) == UserStatus::parse(d, at),
    {
        reveal(<Response as Wire>::parse);
        Self::routes_to_user_status(tag_of(d)->Some_0);
    }

    /// A discriminator of `Stickers` belongs to the arm `Stickers`.
    pub proof fn routes_to_stickers(t: Seq<char>)
        requires
            Stickers::known(t),
        ensures
            Self::route(t) == 141,
    {
        reveal_strlit("stickers");
        assert("stickers"@.len() == 8);
        Self::tags_spelled_8();
    }

    /// A document whose discriminator belongs to `Stickers` decodes through the envelope exactly as
    /// it decodes through `Stickers` itself.
    pub proof fn agrees_with_stickers(d: Doc, at: Seq<char>)
        requires
            tag_of(d) is Some,
            Stickers::known(tag_of(d)->Some_0),
        ensures
            Self::parse(d, at) == Stickers::parse(d, at),
    {
        reveal(<Response as Wire>::parse);
        Self::routes_to_stickers(tag_of(d)->Some_0);
    }

    /// A discriminator of `Emojis` belongs to the arm `Emojis`.
    pub proof fn routes_to_emojis(t: Seq<char>)
        requires
            Emojis::known(t),
        ensures
            Self::route(t) == 142,
    {
        reveal_strlit("emojis");
        assert("emojis"@.len() == 6);
        Self::tags_spelled_6();
    }

    /// A document whose discriminator belongs to `Emojis` decodes through the envelope exactly as
    /// it decodes through `Emojis` itself.
    pub proof fn agrees_with_emojis(d: Doc, at: Seq<char>)
        requires
            tag_of(d) is Some,
            Emojis::known(tag_of(d)->Some_0),
        ensures
            Self::parse(d, at) == Emojis::parse(d, at),
    {
        reveal(<Response as Wire>::parse);
        Self::routes_to_emojis(tag_of(d)->Some_0);
    }

    /// A discriminator of `StickerSet` belongs to the arm `StickerSet`.
    pub proof fn routes_to_sticker_set(t: Seq<char>)
        requires
            StickerSet::known(t),
        ensures
            Self::route(t) == 143,
    {
        reveal_strlit("stickerSet");
        assert("stickerSet"@.len() == 10);
        Self::tags_spelled_10();
    }

    /// A document whose discriminator belongs to `StickerSet` decodes through the envelope exactly
    /// as it decodes through `StickerSet` itself.
    pub proof fn agrees_with_sticker_set(d: Doc, at: Seq<char>)
        requires
            tag_of(d) is Some,
            StickerSet::known(tag_of(d)->Some_0),
        ensures
            Self::parse(d, at) == StickerSet::parse(d, at),
    {
        reveal(<Response as Wire>::parse);
        Self::routes_to_sticker_set(tag_of(d)->Some_0);
    }

    /// A discriminator of `StickerSetInfo` belongs to the arm `StickerSetInfo`.
    pub proof fn routes_to_sticker_set_info(t: Seq<char>)
        requires
            StickerSetInfo::known(t),
        ensures
            Self::route(t) == 144,
    {
        reveal_strlit("stickerSetInfo");
        assert("stickerSetInfo"@.len() == 14);
        Self::tags_spelled_14();
    }

    /// A document whose discriminator belongs to `StickerSetInfo` decodes through the envelope
    /// exactly as it decodes through `StickerSetInfo` itself.
    pub proof fn agrees_with_sticker_set_info(d: Doc, at: Seq<char>)
        requires
            tag_of(d) is Some,
            StickerSetInfo::known(tag_of(d)->Some_0),
        ensures
            Self::parse(d, at) == StickerSetInfo::parse(d, at),
    {
        reveal(<Response as Wire>::parse);
        Self::routes_to_sticker_set_info(tag_of(d)->Some_0);
    }

    /// A discriminator of `StickerSets` belongs to the arm `StickerSets`.
    pub proof fn routes_to_sticker_sets(t: Seq<char>)
        requires
            StickerSets::known(t),
        ensures
            Self::route(t) == 145,
    {
        reveal_strlit("stickerSets");
        assert("stickerSets"@.len() == 11);
        Self::tags_spelled_11();
    }

    /// A document whose discriminator belongs to `StickerSets` decodes through the envelope exactly
    /// as it decodes through `StickerSets` itself.
    pub proof fn agrees_with_sticker_sets(d: Doc, at: Seq<char>)
        requires
            tag_of(d) is Some,
            StickerSets::known(tag_of(d)->Some_0),
        ensures
            Self::parse(d, at) == StickerSets::parse(d, at),
    {
        reveal(<Response as Wire>::parse);
        Self::routes_to_sticker_sets(tag_of(d)->Some_0);
    }

    /// A discriminator of `CallDiscardReason` belongs to the arm `CallDiscardReason`.
    pub proof fn routes_to_call_discard_reason(t: Seq<char>)
        requires
            CallDiscardReason::known(t),
        ensures
            Self::route(t) == 146,
    {
        reveal_strlit("callDiscardReasonEmpty");
        reveal_strlit("callDiscardReasonMissed");
        reveal_strlit("callDiscardReasonDeclined");
        reveal_strlit("callDiscardReasonDisconnected");
        reveal_strlit("callDiscardReasonHungUp");
        assert("callDiscardReasonEmpty"@.len() == 22);
        assert("callDiscardReasonMissed"@.len() == 23);
        assert("callDiscardReasonDeclined"@.len() == 25);
        assert("callDiscardReasonDisconnected"@.len() == 29);
        assert("callDiscardReasonHungUp"@.len() == 23);
        Self::tags_spelled_22();
        Self::tags_spelled_23();
        Self::tags_spelled_25();
        Self::tags_spelled_29();
    }

    /// A document whose discriminator belongs to `CallDiscardReason` decodes through the envelope
    /// exactly as it decodes through `CallDiscardReason` itself.
    pub proof fn agrees_with_call_discard_reason(d: Doc, at: Seq<char>)
        requires
            tag_of(d) is Some,
            CallDiscardReason::known(tag_of(d)->Some_0),
        ensures
            Self::parse(d, at) == CallDiscardReason::parse(d, at),
    {
        reveal(<Response as Wire>::parse);
        Self::routes_to_call_discard_reason(tag_of(d)->Some_0);
    }

    /// A discriminator of `CallProtocol` belongs to the arm `CallProtocol`.
    pub proof fn routes_to_call_protocol(t: Seq<char>)
        requires
            CallProtocol::known(t),
        ensures
            Self::route(t) == 147,
    {
        reveal_strlit("callProtocol");
        assert("callProtocol"@.len() == 12);
        Self::tags_spelled_12();
    }

    /// A document whose discriminator belongs to `CallProtocol` decodes through the envelope
    /// exactly as it decodes through `CallProtocol` itself.
    pub proof fn agrees_with_call_protocol(d: Doc, at: Seq<char>)
        requires
            tag_of(d) is Some,
            CallProtocol::known(tag_of(d)->Some_0),
        ensures
            Self::parse(d, at) == CallProtocol::parse(d, at),
    {
        reveal(<Response as Wire>::parse);
        Self::routes_to_call_protocol(tag_of(d)->Some_0);
    }

    /// A discriminator of `CallConnection` belongs to the arm `CallConnection`.
    pub proof fn routes_to_call_connection(t: Seq<char>)
        requires
            CallConnection::known(t),
        ensures
            Self::route(t) == 148,
    {
        reveal_strlit("callConnection");
        assert("callConnection"@.len() == 14);
        Self::tags_spelled_14();
    }

    /// A document whose discriminator belongs to `CallConnection` decodes through the envelope
    /// exactly as it decodes through `CallConnection` itself.
    pub proof fn agrees_with_call_connection(d: Doc, at: Seq<char>)
        requires
            tag_of(d) is Some,
            CallConnection::known(tag_of(d)->Some_0),
        ensures
            Self::parse(d, at) == CallConnection::parse(d, at),
    {
        reveal(<Response as Wire>::parse);
        Self::routes_to_call_connection(tag_of(d)->Some_0);
    }

    /// A discriminator of `CallId` belongs to the arm `CallId`.
    pub proof fn routes_to_call_id(t: Seq<char>)
        requires
            CallId::known(t),
        ensures
            Self::route(t) == 149,
    {
        reveal_strlit("callId");
        assert("callId"@.len() == 6);
        Self::tags_spelled_6();
    }

    /// A document whose discriminator belongs to `CallId` decodes through the envelope exactly as
    /// it decodes through `CallId` itself.
    pub proof fn agrees_with_call_id(d: Doc, at: Seq<char>)
        requires
            tag_of(d) is Some,
            CallId::known(tag_of(d)->Some_0),
        ensures
            Self::parse(d, at) == CallId::parse(d, at),
    {
        reveal(<Response as Wire>::parse);
        Self::routes_to_call_id(tag_of(d)->Some_0);
    }

    /// A discriminator of `CallState` belongs to the arm `CallState`.
    pub proof fn routes_to_call_state(t: Seq<char>)
        requires
            CallState::known(t),
        ensures
            Self::route(t) == 150,
    {
        reveal_strlit("callStatePending");
        reveal_strlit("callStateExchangingKeys");
        reveal_strlit("callStateReady");
        reveal_strlit("callStateHangingUp");
        reveal_strlit("callStateDiscarded");
        reveal_strlit("callStateError");
        assert("callStatePending"@.len() == 16);
        assert("callStateExchangingKeys"@.len() == 23);
        assert("callStateReady"@.len() == 14);
        assert("callStateHangingUp"@.len() == 18);
        assert("callStateDiscarded"@.len() == 18);
        assert("callStateError"@.len() == 14);
        Self::tags_spelled_14();
        Self::tags_spelled_16();
        Self::tags_spelled_18();
        Self::tags_spelled_23();
    }

    /// A document whose discriminator belongs to `CallState` decodes through the envelope exactly
    /// as it decodes through `CallState` itself.
    pub proof fn agrees_with_call_state(d: Doc, at: Seq<char>)
        requires
            tag_of(d) is Some,
            CallState::known(tag_of(d)->Some_0),
        ensures
            Self::parse(d, at) == CallState::parse(d, at),
    {
        reveal(<Response as Wire>::parse);
        Self::routes_to_call_state(tag_of(d)->Some_0);
    }

    /// A discriminator of `CallProblem` belongs to the arm `CallProblem`.
    pub proof fn routes_to_call_problem(t: Seq<char>)
        requires
            CallProblem::known(t),
        ensures
            Self::route(t) == 151,
    {
        reveal_strlit("callProblemEcho");
        reveal_strlit("callProblemNoise");
        reveal_strlit("callProblemInterruptions");
        reveal_strlit("callProblemDistortedSpeech");
        reveal_strlit("callProblemSilentLocal");
        reveal_strlit("callProblemSilentRemote");
        reveal_strlit("callProblemDropped");
        assert("callProblemEcho"@.len() == 15);
        assert("callProblemNoise"@.len() == 16);
        assert("callProblemInterruptions"@.len() == 24);
        assert("callProblemDistortedSpeech"@.len() == 26);
        assert("callProblemSilentLocal"@.len() == 22);
        assert("callProblemSilentRemote"@.len() == 23);
        assert("callProblemDropped"@.len() == 18);
        Self::tags_spelled_15();
        Self::tags_spelled_16();
        Self::tags_spelled_18();
        Self::tags_spelled_22();
        Self::tags_spelled_23();
        Self::tags_spelled_24();
        Self::tags_spelled_26();
    }

    /// A document whose discriminator belongs to `CallProblem` decodes through the envelope exactly
    /// as it decodes through `CallProblem` itself.
    pub proof fn agrees_with_call_problem(d: Doc, at: Seq<char>)
        requires
            tag_of(d) is Some,
            CallProblem::known(tag_of(d)->Some_0),
        ensures
            Self::parse(d, at) == CallProblem::parse(d, at),
    {
        reveal(<Response as Wire>::parse);
        Self::routes_to_call_problem(tag_of(d)->Some_0);
    }

    /// A discriminator of `Call` belongs to the arm `Call`.
    pub proof fn routes_to_call(t: Seq<char>)
        requires
            Call::known(t),
        ensures
            Self::route(t) == 152,
    {
        reveal_strlit("call");
        assert("call"@.len() == 4);
        Self::tags_spelled_4();
    }

    /// A document whose discriminator belongs to `Call` decodes through the envelope exactly as it
    /// decodes through `Call` itself.
    pub proof fn agrees_with_call(d: Doc, at: Seq<char>)
        requires
            tag_of(d) is Some,
            Call::known(tag_of(d)->Some_0),
        ensures
            Self::parse(d, at) == Call::parse(d, at),
    {
        reveal(<Response as Wire>::parse);
        Self::routes_to_call(tag_of(d)->Some_0);
    }

    /// A discriminator of `PhoneNumberAuthenticationSettings` belongs to the arm `PhoneNumberAuthenticationSettings`.
    pub proof fn routes_to_phone_number_authentication_settings(t: Seq<char>)
        requires
            PhoneNumberAuthenticationSettings::known(t),
        ensures
            Self::route(t) == 153,
    {
        reveal_strlit("phoneNumberAuthenticationSettings");
        assert("phoneNumberAuthenticationSettings"@.len() == 33);
        Self::tags_spelled_33();
    }

    /// A document whose discriminator belongs to `PhoneNumberAuthenticationSettings` decodes
    /// through the envelope exactly as it decodes through `PhoneNumberAuthenticationSettings`
    /// itself.
    pub proof fn agrees_with_phone_number_authentication_settings(d: Doc, at: Seq<char>)
        requires
            tag_of(d) is Some,
            PhoneNumberAuthenticationSettings::known(tag_of(d)->Some_0),
        ensures
            Self::parse(d, at) == PhoneNumberAuthenticationSettings::parse(d, at),
    {
        reveal(<Response as Wire>::parse);
        Self::routes_to_phone_number_authentication_settings(tag_of(d)->Some_0);
    }

    /// A discriminator of `Animations` belongs to the arm `Animations`.
    pub proof fn routes_to_animations(t: Seq<char>)
        requires
            Animations::known(t),
        ensures
            Self::route(t) == 154,
    {
        reveal_strlit("animations");
        assert("animations"@.len() == 10);
        Self::tags_spelled_10();
    }

    /// A document whose discriminator belongs to `Animations` decodes through the envelope exactly
    /// as it decodes through `Animations` itself.
    pub proof fn agrees_with_animations(d: Doc, at: Seq<char>)
        requires
            tag_of(d) is Some,
            Animations::known(tag_of(d)->Some_0),
        ensures
            Self::parse(d, at) == Animations::parse(d, at),
    {
        reveal(<Response as Wire>::parse);
        Self::routes_to_animations(tag_of(d)->Some_0);
    }

    /// A discriminator of `ImportedContacts` belongs to the arm `ImportedContacts`.
    pub proof fn routes_to_imported_contacts(t: Seq<char>)
        requires
            ImportedContacts::known(t),
        ensures
            Self::route(t) == 155,
    {
        reveal_strlit("importedContacts");
        assert("importedContacts"@.len() == 16);
        Self::tags_spelled_16();
    }

    /// A document whose discriminator belongs to `ImportedContacts` decodes through the envelope
    /// exactly as it decodes through `ImportedContacts` itself.
    pub proof fn agrees_with_imported_contacts(d: Doc, at: Seq<char>)
        requires
            tag_of(d) is Some,
            ImportedContacts::known(tag_of(d)->Some_0),
        ensures
            Self::parse(d, at) == ImportedContacts::parse(d, at),
    {
        reveal(<Response as Wire>::parse);
        Self::routes_to_imported_contacts(tag_of(d)->Some_0);
    }

    /// A discriminator of `HttpUrl` belongs to the arm `HttpUrl`.
    pub proof fn routes_to_http_url(t: Seq<char>)
        requires
            HttpUrl::known(t),
        ensures
            Self::route(t) == 156,
    {
        reveal_strlit("httpUrl");
        assert("httpUrl"@.len() == 7);
        Self::tags_spelled_7();
    }

    /// A document whose discriminator belongs to `HttpUrl` decodes through the envelope exactly as
    /// it decodes through `HttpUrl` itself.
    pub proof fn agrees_with_http_url(d: Doc, at: Seq<char>)
        requires
            tag_of(d) is Some,
            HttpUrl::known(tag_of(d)->Some_0),
        ensures
            Self::parse(d, at) == HttpUrl::parse(d, at),
    {
        reveal(<Response as Wire>::parse);
        Self::routes_to_http_url(tag_of(d)->Some_0);
    }

    /// A discriminator of `InputInlineQueryResult` belongs to the arm `InputInlineQueryResult`.
    pub proof fn routes_to_input_inline_query_result(t: Seq<char>)
        requires
            InputInlineQueryResult::known(t),
        ensures
            Self::route(t) == 157,
    {
        reveal_strlit("inputInlineQueryResultAnimatedGif");
        reveal_strlit("inputInlineQueryResultAnimatedMpeg4");
        reveal_strlit("inputInlineQueryResultArticle");
        reveal_strlit("inputInlineQueryResultAudio");
        reveal_strlit("inputInlineQueryResultContact");
        reveal_strlit("inputInlineQueryResultDocument");
        reveal_strlit("inputInlineQueryResultGame");
        reveal_strlit("inputInlineQueryResultLocation");
        reveal_strlit("inputInlineQueryResultPhoto");
        reveal_strlit("inputInlineQueryResultSticker");
        reveal_strlit("inputInlineQueryResultVenue");
        reveal_strlit("inputInlineQueryResultVideo");
        reveal_strlit("inputInlineQueryResultVoiceNote");
        assert("inputInlineQueryResultAnimatedGif"@.len() == 33);
        assert("inputInlineQueryResultAnimatedMpeg4"@.len() == 35);
        assert("inputInlineQueryResultArticle"@.len() == 29);
        assert("inputInlineQueryResultAudio"@.len() == 27);
        assert("inputInlineQueryResultContact"@.len() == 29);
        assert("inputInlineQueryResultDocument"@.len() == 30);
        assert("inputInlineQueryResultGame"@.len() == 26);
        assert("inputInlineQueryResultLocation"@.len() == 30);
        assert("inputInlineQueryResultPhoto"@.len() == 27);
        assert("inputInlineQueryResultSticker"@.len() == 29);
        assert("inputInlineQueryResultVenue"@.len() == 27);
        assert("inputInlineQueryResultVideo"@.len() == 27);
        assert("inputInlineQueryResultVoiceNote"@.len() == 31);
        Self::tags_spelled_26();
        Self::tags_spelled_27();
        Self::tags_spelled_29();
        Self::tags_spelled_30();
        Self::tags_spelled_31();
        Self::tags_spelled_33();
        Self::tags_spelled_35();
    }

    /// A document whose discriminator belongs to `InputInlineQueryResult` decodes through the
    /// envelope exactly as it decodes through `InputInlineQueryResult` itself.
    pub proof fn agrees_with_input_inline_query_result(d: Doc, at: Seq<char>)
        requires
            tag_of(d) is Some,
            InputInlineQueryResult::known(tag_of(d)->Some_0),
        ensures
            Self::parse(d, at) == InputInlineQueryResult::parse(d, at),
    {
        reveal(<Response as Wire>::parse);
        Self::routes_to_input_inline_query_result(tag_of(d)->Some_0);
    }

    /// A discriminator of `InlineQueryResult` belongs to the arm `InlineQueryResult`.
    pub proof fn routes_to_inline_query_result(t: Seq<char>)
        requires
            InlineQueryResult::known(t),
        ensures
            Self::route(t) == 158,
    {
        reveal_strlit("inlineQueryResultArticle");
        reveal_strlit("inlineQueryResultContact");
        reveal_strlit("inlineQueryResultLocation");
        reveal_strlit("inlineQueryResultVenue");
        reveal_strlit("inlineQueryResultGame");
        reveal_strlit("inlineQueryResultAnimation");
        reveal_strlit("inlineQueryResultAudio");
        reveal_strlit("inlineQueryResultDocument");
        reveal_strlit("inlineQueryResultPhoto");
        reveal_strlit("inlineQueryResultSticker");
        reveal_strlit("inlineQueryResultVideo");
        reveal_strlit("inlineQueryResultVoiceNote");
        assert("inlineQueryResultArticle"@.len() == 24);
        assert("inlineQueryResultContact"@.len() == 24);
        assert("inlineQueryResultLocation"@.len() == 25);
        assert("inlineQueryResultVenue"@.len() == 22);
        assert("inlineQueryResultGame"@.len() == 21);
        assert("inlineQueryResultAnimation"@.len() == 26);
        assert("inlineQueryResultAudio"@.len() == 22);
        assert("inlineQueryResultDocument"@.len() == 25);
        assert("inlineQueryResultPhoto"@.len() == 22);
        assert("inlineQueryResultSticker"@.len() == 24);
        assert("inlineQueryResultVideo"@.len() == 22);
        assert("inlineQueryResultVoiceNote"@.len() == 26);
        Self::tags_spelled_21();
        Self::tags_spelled_22();
        Self::tags_spelled_24();
        Self::tags_spelled_25();
        Self::tags_spelled_26();
    }

    /// A document whose discriminator belongs to `InlineQueryResult` decodes through the envelope
    /// exactly as it decodes through `InlineQueryResult` itself.
    pub proof fn agrees_with_inline_query_result(d: Doc, at: Seq<char>)
        requires
            tag_of(d) is Some,
            InlineQueryResult::known(tag_of(d)->Some_0),
        ensures
            Self::parse(d, at) == InlineQueryResult::parse(d, at),
    {
        reveal(<Response as Wire>::parse);
        Self::routes_to_inline_query_result(tag_of(d)->Some_0);
    }

    /// A discriminator of `InlineQueryResults` belongs to the arm `InlineQueryResults`.
    pub proof fn routes_to_inline_query_results(t: Seq<char>)
        requires
            InlineQueryResults::known(t),
        ensures
            Self::route(t) == 159,
    {
        reveal_strlit("inlineQueryResults");
        assert("inlineQueryResults"@.len() == 18);
        Self::tags_spelled_18();
    }

    /// A document whose discriminator belongs to `InlineQueryResults` decodes through the envelope
    /// exactly as it decodes through `InlineQueryResults` itself.
    pub proof fn agrees_with_inline_query_results(d: Doc, at: Seq<char>)
        requires
            tag_of(d) is Some,
            InlineQueryResults::known(tag_of(d)->Some_0),
        ensures
            Self::parse(d, at) == InlineQueryResults::parse(d, at),
    {
        reveal(<Response as Wire>::parse);
        Self::routes_to_inline_query_results(tag_of(d)->Some_0);
    }

    /// A discriminator of `CallbackQueryPayload` belongs to the arm `CallbackQueryPayload`.
    pub proof fn routes_to_callback_query_payload(t: Seq<char>)
        requires
            CallbackQueryPayload::known(t),
        ensures
            Self::route(t) == 160,
    {
        reveal_strlit("callbackQueryPayloadData");
        reveal_strlit("callbackQueryPayloadGame");
        assert("callbackQueryPayloadData"@.len() == 24);
        assert("callbackQueryPayloadGame"@.len() == 24);
        Self::tags_spelled_24();
    }

    /// A document whose discriminator belongs to `CallbackQueryPayload` decodes through the
    /// envelope exactly as it decodes through `CallbackQueryPayload` itself.
    pub proof fn agrees_with_callback_query_payload(d: Doc, at: Seq<char>)
        requires
            tag_of(d) is Some,
            CallbackQueryPayload::known(tag_of(d)->Some_0),
        ensures
            Self::parse(d, at) == CallbackQueryPayload::parse(d, at),
    {
        reveal(<Response as Wire>::parse);
        Self::routes_to_callback_query_payload(tag_of(d)->Some_0);
    }

    /// A discriminator of `CallbackQueryAnswer` belongs to the arm `CallbackQueryAnswer`.
    pub proof fn routes_to_callback_query_answer(t: Seq<char>)
        requires
            CallbackQueryAnswer::known(t),
        ensures
            Self::route(t) == 161,
    {
        reveal_strlit("callbackQueryAnswer");
        assert("callbackQueryAnswer"@.len() == 19);
        Self::tags_spelled_19();
    }

    /// A document whose discriminator belongs to `CallbackQueryAnswer` decodes through the envelope
    /// exactly as it decodes through `CallbackQueryAnswer` itself.
    pub proof fn agrees_with_callback_query_answer(d: Doc, at: Seq<char>)
        requires
            tag_of(d) is Some,
            CallbackQueryAnswer::known(tag_of(d)->Some_0),
        ensures
            Self::parse(d, at) == CallbackQueryAnswer::parse(d, at),
    {
        reveal(<Response as Wire>::parse);
        Self::routes_to_callback_query_answer(tag_of(d)->Some_0);
    }

    /// A discriminator of `CustomRequestResult` belongs to the arm `CustomRequestResult`.
    pub proof fn routes_to_custom_request_result(t: Seq<char>)
        requires
            CustomRequestResult::known(t),
        ensures
            Self::route(t) == 162,
    {
        reveal_strlit("customRequestResult");
        assert("customRequestResult"@.len() == 19);
        Self::tags_spelled_19();
    }

    /// A document whose discriminator belongs to `CustomRequestResult` decodes through the envelope
    /// exactly as it decodes through `CustomRequestResult` itself.
    pub proof fn agrees_with_custom_request_result(d: Doc, at: Seq<char>)
        requires
            tag_of(d) is Some,
            CustomRequestResult::known(tag_of(d)->Some_0),
        ensures
            Self::parse(d, at) == CustomRequestResult::parse(d, at),
    {
        reveal(<Response as Wire>::parse);
        Self::routes_to_custom_request_result(tag_of(d)->Some_0);
    }

    /// A discriminator of `GameHighScore` belongs to the arm `GameHighScore`.
    pub proof fn routes_to_game_high_score(t: Seq<char>)
        requires
            GameHighScore::known(t),
        ensures
            Self::route(t) == 163,
    {
        reveal_strlit("gameHighScore");
        assert("gameHighScore"@.len() == 13);
        Self::tags_spelled_13();
    }

    /// A document whose discriminator belongs to `GameHighScore` decodes through the envelope
    /// exactly as it decodes through `GameHighScore` itself.
    pub proof fn agrees_with_game_high_score(d: Doc, at: Seq<char>)
        requires
            tag_of(d) is Some,
            GameHighScore::known(tag_of(d)->Some_0),
        ensures
            Self::parse(d, at) == GameHighScore::parse(d, at),
    {
        reveal(<Response as Wire>::parse);
        Self::routes_to_game_high_score(tag_of(d)->Some_0);
    }

    /// A discriminator of `GameHighScores` belongs to the arm `GameHighScores`.
    pub proof fn routes_to_game_high_scores(t: Seq<char>)
        requires
            GameHighScores::known(t),
        ensures
            Self::route(t) == 164,
    {
        reveal_strlit("gameHighScores");
        assert("gameHighScores"@.len() == 14);
        Self::tags_spelled_14();
    }

    /// A document whose discriminator belongs to `GameHighScores` decodes through the envelope
    /// exactly as it decodes through `GameHighScores` itself.
    pub proof fn agrees_with_game_high_scores(d: Doc, at: Seq<char>)
        requires
            tag_of(d) is Some,
            GameHighScores::known(tag_of(d)->Some_0),
        ensures
            Self::parse(d, at) == GameHighScores::parse(d, at),
    {
        reveal(<Response as Wire>::parse);
        Self::routes_to_game_high_scores(tag_of(d)->Some_0);
    }

    /// A discriminator of `ChatEventAction` belongs to the arm `ChatEventAction`.
    pub proof fn routes_to_chat_event_action(t: Seq<char>)
        requires
            ChatEventAction::known(t),
        ensures
            Self::route(t) == 165,
    {
        reveal_strlit("chatEventMessageEdited");
        reveal_strlit("chatEventMessageDeleted");
        reveal_strlit("chatEventPollStopped");
        reveal_strlit("chatEventMessagePinned");
        reveal_strlit("chatEventMessageUnpinned");
        reveal_strlit("chatEventMemberJoined");
        reveal_strlit("chatEventMemberLeft");
        reveal_strlit("chatEventMemberInvited");
        reveal_strlit("chatEventMemberPromoted");
        reveal_strlit("chatEventMemberRestricted");
        reveal_strlit("chatEventTitleChanged");
        reveal_strlit("chatEventPermissionsChanged");
        reveal_strlit("chatEventDescriptionChanged");
        reveal_strlit("chatEventUsernameChanged");
        reveal_strlit("chatEventPhotoChanged");
        reveal_strlit("chatEventInvitesToggled");
        reveal_strlit("chatEventLinkedChatChanged");
        reveal_strlit("chatEventSlowModeDelayChanged");
        reveal_strlit("chatEventSignMessagesToggled");
        reveal_strlit("chatEventStickerSetChanged");
        reveal_strlit("chatEventLocationChanged");
        reveal_strlit("chatEventIsAllHistoryAvailableToggled");
        assert("chatEventMessageEdited"@.len() == 22);
        assert("chatEventMessageDeleted"@.len() == 23);
        assert("chatEventPollStopped"@.len() == 20);
        assert("chatEventMessagePinned"@.len() == 22);
        assert("chatEventMessageUnpinned"@.len() == 24);
        assert("chatEventMemberJoined"@.len() == 21);
        assert("chatEventMemberLeft"@.len() == 19);
        assert("chatEventMemberInvited"@.len() == 22);
        assert("chatEventMemberPromoted"@.len() == 23);
        assert("chatEventMemberRestricted"@.len() == 25);
        assert("chatEventTitleChanged"@.len() == 21);
        assert("chatEventPermissionsChanged"@.len() == 27);
        assert("chatEventDescriptionChanged"@.len() == 27);
        assert("chatEventUsernameChanged"@.len() == 24);
        assert("chatEventPhotoChanged"@.len() == 21);
        assert("chatEventInvitesToggled"@.len() == 23);
        assert("chatEventLinkedChatChanged"@.len() == 26);
        assert("chatEventSlowModeDelayChanged"@.len() == 29);
        assert("chatEventSignMessagesToggled"@.len() == 28);
        assert("chatEventStickerSetChanged"@.len() == 26);
        assert("chatEventLocationChanged"@.len() == 24);
        assert("chatEventIsAllHistoryAvailableToggled"@.len() == 37);
        Self::tags_spelled_19();
        Self::tags_spelled_20();
        Self::tags_spelled_21();
        Self::tags_spelled_22();
        Self::tags_spelled_23();
        Self::tags_spelled_24();
        Self::tags_spelled_25();
        Self::tags_spelled_26();
        Self::tags_spelled_27();
        Self::tags_spelled_28();
        Self::tags_spelled_29();
        Self::tags_spelled_37();
    }

    /// A document whose discriminator belongs to `ChatEventAction` decodes through the envelope
    /// exactly as it decodes through `ChatEventAction` itself.
    pub proof fn agrees_with_chat_event_action(d: Doc, at: Seq<char>)
        requires
            tag_of(d) is Some,
            ChatEventAction::known(tag_of(d)->Some_0),
        ensures
            Self::parse(d, at) == ChatEventAction::parse(d, at),
    {
        reveal(<Response as Wire>::parse);
        Self::routes_to_chat_event_action(tag_of(d)->Some_0);
    }

    /// A discriminator of `ChatEvent` belongs to the arm `ChatEvent`.
    pub proof fn routes_to_chat_event(t: Seq<char>)
        requires
            ChatEvent::known(t),
        ensures
            Self::route(t) == 166,
    {
        reveal_strlit("chatEvent");
        assert("chatEvent"@.len() == 9);
        Self::tags_spelled_9();
    }

    /// A document whose discriminator belongs to `ChatEvent` decodes through the envelope exactly
    /// as it decodes through `ChatEvent` itself.
    pub proof fn agrees_with_chat_event(d: Doc, at: Seq<char>)
        requires
            tag_of(d) is Some,
            ChatEvent::known(tag_of(d)->Some_0),
        ensures
            Self::parse(d, at) == ChatEvent::parse(d, at),
    {
        reveal(<Response as Wire>::parse);
        Self::routes_to_chat_event(tag_of(d)->Some_0);
    }

    /// A discriminator of `ChatEvents` belongs to the arm `ChatEvents`.
    pub proof fn routes_to_chat_events(t: Seq<char>)
        requires
            ChatEvents::known(t),
        ensures
            Self::route(t) == 167,
    {
        reveal_strlit("chatEvents");
        assert("chatEvents"@.len() == 10);
        Self::tags_spelled_10();
    }

    /// A document whose discriminator belongs to `ChatEvents` decodes through the envelope exactly
    /// as it decodes through `ChatEvents` itself.
    pub proof fn agrees_with_chat_events(d: Doc, at: Seq<char>)
        requires
            tag_of(d) is Some,
            ChatEvents::known(tag_of(d)->Some_0),
        ensures
            Self::parse(d, at) == ChatEvents::parse(d, at),
    {
        reveal(<Response as Wire>::parse);
        Self::routes_to_chat_events(tag_of(d)->Some_0);
    }

    /// A discriminator of `ChatEventLogFilters` belongs to the arm `ChatEventLogFilters`.
    pub proof fn routes_to_chat_event_log_filters(t: Seq<char>)
        requires
            ChatEventLogFilters::known(t),
        ensures
            Self::route(t) == 168,
    {
        reveal_strlit("chatEventLogFilters");
        assert("chatEventLogFilters"@.len() == 19);
        Self::tags_spelled_19();
    }

    /// A document whose discriminator belongs to `ChatEventLogFilters` decodes through the envelope
    /// exactly as it decodes through `ChatEventLogFilters` itself.
    pub proof fn agrees_with_chat_event_log_filters(d: Doc, at: Seq<char>)
        requires
            tag_of(d) is Some,
            ChatEventLogFilters::known(tag_of(d)->Some_0),
        ensures
            Self::parse(d, at) == ChatEventLogFilters::parse(d, at),
    {
        reveal(<Response as Wire>::parse);
        Self::routes_to_chat_event_log_filters(tag_of(d)->Some_0);
    }

    /// A discriminator of `LanguagePackStringValue` belongs to the arm `LanguagePackStringValue`.
    pub proof fn routes_to_language_pack_string_value(t: Seq<char>)
        requires
            LanguagePackStringValue::known(t),
        ensures
            Self::route(t) == 169,
    {
        reveal_strlit("languagePackStringValueOrdinary");
        reveal_strlit("languagePackStringValuePluralized");
        reveal_strlit("languagePackStringValueDeleted");
        assert("languagePackStringValueOrdinary"@.len() == 31);
        assert("languagePackStringValuePluralized"@.len() == 33);
        assert("languagePackStringValueDeleted"@.len() == 30);
        Self::tags_spelled_30();
        Self::tags_spelled_31();
        Self::tags_spelled_33();
    }

    /// A document whose discriminator belongs to `LanguagePackStringValue` decodes through the
    /// envelope exactly as it decodes through `LanguagePackStringValue` itself.
    pub proof fn agrees_with_language_pack_string_value(d: Doc, at: Seq<char>)
        requires
            tag_of(d) is Some,
            LanguagePackStringValue::known(tag_of(d)->Some_0),
        ensures
            Self::parse(d, at) == LanguagePackStringValue::parse(d, at),
    {
        reveal(<Response as Wire>::parse);
        Self::routes_to_language_pack_string_value(tag_of(d)->Some_0);
    }

    /// A discriminator of `LanguagePackString` belongs to the arm `LanguagePackString`.
    pub proof fn routes_to_language_pack_string(t: Seq<char>)
        requires
            LanguagePackString::known(t),
        ensures
            Self::route(t) == 170,
    {
        reveal_strlit("languagePackString");
        assert("languagePackString"@.len() == 18);
        Self::tags_spelled_18();
    }

    /// A document whose discriminator belongs to `LanguagePackString` decodes through the envelope
    /// exactly as it decodes through `LanguagePackString` itself.
    pub proof fn agrees_with_language_pack_string(d: Doc, at: Seq<char>)
        requires
            tag_of(d) is Some,
            LanguagePackString::known(tag_of(d)->Some_0),
        ensures
            Self::parse(d, at) == LanguagePackString::parse(d, at),
    {
        reveal(<Response as Wire>::parse);
        Self::routes_to_language_pack_string(tag_of(d)->Some_0);
    }

    /// A discriminator of `LanguagePackStrings` belongs to the arm `LanguagePackStrings`.
    pub proof fn routes_to_language_pack_strings(t: Seq<char>)
        requires
            LanguagePackStrings::known(t),
        ensures
            Self::route(t) == 171,
    {
        reveal_strlit("languagePackStrings");
        assert("languagePackStrings"@.len() == 19);
        Self::tags_spelled_19();
    }

    /// A document whose discriminator belongs to `LanguagePackStrings` decodes through the envelope
    /// exactly as it decodes through `LanguagePackStrings` itself.
    pub proof fn agrees_with_language_pack_strings(d: Doc, at: Seq<char>)
        requires
            tag_of(d) is Some,
            LanguagePackStrings::known(tag_of(d)->Some_0),
        ensures
            Self::parse(d, at) == LanguagePackStrings::parse(d, at),
    {
        reveal(<Response as Wire>::parse);
        Self::routes_to_language_pack_strings(tag_of(d)->Some_0);
    }

    /// A discriminator of `LanguagePackInfo` belongs to the arm `LanguagePackInfo`.
    pub proof fn routes_to_language_pack_info(t: Seq<char>)
        requires
            LanguagePackInfo::known(t),
        ensures
            Self::route(t) == 172,
    {
        reveal_strlit("languagePackInfo");
        assert("languagePackInfo"@.len() == 16);
        Self::tags_spelled_16();
    }

    /// A document whose discriminator belongs to `LanguagePackInfo` decodes through the envelope
    /// exactly as it decodes through `LanguagePackInfo` itself.
    pub proof fn agrees_with_language_pack_info(d: Doc, at: Seq<char>)
        requires
            tag_of(d) is Some,
            LanguagePackInfo::known(tag_of(d)->Some_0),
        ensures
            Self::parse(d, at) == LanguagePackInfo::parse(d, at),
    {
        reveal(<Response as Wire>::parse);
        Self::routes_to_language_pack_info(tag_of(d)->Some_0);
    }

    /// A discriminator of `LocalizationTargetInfo` belongs to the arm `LocalizationTargetInfo`.
    pub proof fn routes_to_localization_target_info(t: Seq<char>)
        requires
            LocalizationTargetInfo::known(t),
        ensures
            Self::route(t) == 173,
    {
        reveal_strlit("localizationTargetInfo");
        assert("localizationTargetInfo"@.len() == 22);
        Self::tags_spelled_22();
    }

    /// A document whose discriminator belongs to `LocalizationTargetInfo` decodes through the
    /// envelope exactly as it decodes through `LocalizationTargetInfo` itself.
    pub proof fn agrees_with_localization_target_info(d: Doc, at: Seq<char>)
        requires
            tag_of(d) is Some,
            LocalizationTargetInfo::known(tag_of(d)->Some_0),
        ensures
            Self::parse(d, at) == LocalizationTargetInfo::parse(d, at),
    {
        reveal(<Response as Wire>::parse);
        Self::routes_to_localization_target_info(tag_of(d)->Some_0);
    }

    /// A discriminator of `DeviceToken` belongs to the arm `DeviceToken`.
    pub proof fn routes_to_device_token(t: Seq<char>)
        requires
            DeviceToken::known(t),
        ensures
            Self::route(t) == 174,
    {
        reveal_strlit("deviceTokenFirebaseCloudMessaging");
        reveal_strlit("deviceTokenApplePush");
        reveal_strlit("deviceTokenApplePushVoIP");
        reveal_strlit("deviceTokenWindowsPush");
        reveal_strlit("deviceTokenMicrosoftPush");
        reveal_strlit("deviceTokenMicrosoftPushVoIP");
        reveal_strlit("deviceTokenWebPush");
        reveal_strlit("deviceTokenSimplePush");
        reveal_strlit("deviceTokenUbuntuPush");
        reveal_strlit("deviceTokenBlackBerryPush");
        reveal_strlit("deviceTokenTizenPush");
        assert("deviceTokenFirebaseCloudMessaging"@.len() == 33);
        assert("deviceTokenApplePush"@.len() == 20);
        assert("deviceTokenApplePushVoIP"@.len() == 24);
        assert("deviceTokenWindowsPush"@.len() == 22);
        assert("deviceTokenMicrosoftPush"@.len() == 24);
        assert("deviceTokenMicrosoftPushVoIP"@.len() == 28);
        assert("deviceTokenWebPush"@.len() == 18);
        assert("deviceTokenSimplePush"@.len() == 21);
        assert("deviceTokenUbuntuPush"@.len() == 21);
        assert("deviceTokenBlackBerryPush"@.len() == 25);
        assert("deviceTokenTizenPush"@.len() == 20);
        Self::tags_spelled_18();
        Self::tags_spelled_20();
        Self::tags_spelled_21();
        Self::tags_spelled_22();
        Self::tags_spelled_24();
        Self::tags_spelled_25();
        Self::tags_spelled_28();
        Self::tags_spelled_33();
    }

    /// A document whose discriminator belongs to `DeviceToken` decodes through the envelope exactly
    /// as it decodes through `DeviceToken` itself.
    pub proof fn agrees_with_device_token(d: Doc, at: Seq<char>)
        requires
            tag_of(d) is Some,
            DeviceToken::known(tag_of(d)->Some_0),
        ensures
            Self::parse(d, at) == DeviceToken::parse(d, at),
    {
        reveal(<Response as Wire>::parse);
        Self::routes_to_device_token(tag_of(d)->Some_0);
    }

    /// A discriminator of `PushReceiverId` belongs to the arm `PushReceiverId`.
    pub proof fn routes_to_push_receiver_id(t: Seq<char>)
        requires
            PushReceiverId::known(t),
        ensures
            Self::route(t) == 175,
    {
        reveal_strlit("pushReceiverId");
        assert("pushReceiverId"@.len() == 14);
        Self::tags_spelled_14();
    }

    /// A document whose discriminator belongs to `PushReceiverId` decodes through the envelope
    /// exactly as it decodes through `PushReceiverId` itself.
    pub proof fn agrees_with_push_receiver_id(d: Doc, at: Seq<char>)
        requires
            tag_of(d) is Some,
            PushReceiverId::known(tag_of(d)->Some_0),
        ensures
            Self::parse(d, at) == PushReceiverId::parse(d, at),
    {
        reveal(<Response as Wire>::parse);
        Self::routes_to_push_receiver_id(tag_of(d)->Some_0);
    }

    /// A discriminator of `BackgroundFill` belongs to the arm `BackgroundFill`.
    pub proof fn routes_to_background_fill(t: Seq<char>)
        requires
            BackgroundFill::known(t),
        ensures
            Self::route(t) == 176,
    {
        reveal_strlit("backgroundFillSolid");
        reveal_strlit("backgroundFillGradient");
        assert("backgroundFillSolid"@.len() == 19);
        assert("backgroundFillGradient"@.len() == 22);
        Self::tags_spelled_19();
        Self::tags_spelled_22();
    }

    /// A document whose discriminator belongs to `BackgroundFill` decodes through the envelope
    /// exactly as it decodes through `BackgroundFill` itself.
    pub proof fn agrees_with_background_fill(d: Doc, at: Seq<char>)
        requires
            tag_of(d) is Some,
            BackgroundFill::known(tag_of(d)->Some_0),
        ensures
            Self::parse(d, at) == BackgroundFill::parse(d, at),
    {
        reveal(<Response as Wire>::parse);
        Self::routes_to_background_fill(tag_of(d)->Some_0);
    }

    /// A discriminator of `BackgroundType` belongs to the arm `BackgroundType`.
    pub proof fn routes_to_background_type(t: Seq<char>)
        requires
            BackgroundType::known(t),
        ensures
            Self::route(t) == 177,
    {
        reveal_strlit("backgroundTypeWallpaper");
        reveal_strlit("backgroundTypePattern");
        reveal_strlit("backgroundTypeFill");
        assert("backgroundTypeWallpaper"@.len() == 23);
        assert("backgroundTypePattern"@.len() == 21);
        assert("backgroundTypeFill"@.len() == 18);
        Self::tags_spelled_18();
        Self::tags_spelled_21();
        Self::tags_spelled_23();
    }

    /// A document whose discriminator belongs to `BackgroundType` decodes through the envelope
    /// exactly as it decodes through `BackgroundType` itself.
    pub proof fn agrees_with_background_type(d: Doc, at: Seq<char>)
        requires
            tag_of(d) is Some,
            BackgroundType::known(tag_of(d)->Some_0),
        ensures
            Self::parse(d, at) == BackgroundType::parse(d, at),
    {
        reveal(<Response as Wire>::parse);
        Self::routes_to_background_type(tag_of(d)->Some_0);
    }

    /// A discriminator of `Background` belongs to the arm `Background`.
    pub proof fn routes_to_background(t: Seq<char>)
        requires
            Background::known(t),
        ensures
            Self::route(t) == 178,
    {
        reveal_strlit("background");
        assert("background"@.len() == 10);
        Self::tags_spelled_10();
    }

    /// A document whose discriminator belongs to `Background` decodes through the envelope exactly
    /// as it decodes through `Background` itself.
    pub proof fn agrees_with_background(d: Doc, at: Seq<char>)
        requires
            tag_of(d) is Some,
            Background::known(tag_of(d)->Some_0),
        ensures
            Self::parse(d, at) == Background::parse(d, at),
    {
        reveal(<Response as Wire>::parse);
        Self::routes_to_background(tag_of(d)->Some_0);
    }

    /// A discriminator of `Backgrounds` belongs to the arm `Backgrounds`.
    pub proof fn routes_to_backgrounds(t: Seq<char>)
        requires
            Backgrounds::known(t),
        ensures
            Self::route(t) == 179,
    {
        reveal_strlit("backgrounds");
        assert("backgrounds"@.len() == 11);
        Self::tags_spelled_11();
    }

    /// A document whose discriminator belongs to `Backgrounds` decodes through the envelope exactly
    /// as it decodes through `Backgrounds` itself.
    pub proof fn agrees_with_backgrounds(d: Doc, at: Seq<char>)
        requires
            tag_of(d) is Some,
            Backgrounds::known(tag_of(d)->Some_0),
        ensures
            Self::parse(d, at) == Backgrounds::parse(d, at),
    {
        reveal(<Response as Wire>::parse);
        Self::routes_to_backgrounds(tag_of(d)->Some_0);
    }

    /// A discriminator of `InputBackground` belongs to the arm `InputBackground`.
    pub proof fn routes_to_input_background(t: Seq<char>)
        requires
            InputBackground::known(t),
        ensures
            Self::route(t) == 180,
    {
        reveal_strlit("inputBackgroundLocal");
        reveal_strlit("inputBackgroundRemote");
        assert("inputBackgroundLocal"@.len() == 20);
        assert("inputBackgroundRemote"@.len() == 21);
        Self::tags_spelled_20();
        Self::tags_spelled_21();
    }

    /// A document whose discriminator belongs to `InputBackground` decodes through the envelope
    /// exactly as it decodes through `InputBackground` itself.
    pub proof fn agrees_with_input_background(d: Doc, at: Seq<char>)
        requires
            tag_of(d) is Some,
            InputBackground::known(tag_of(d)->Some_0),
        ensures
            Self::parse(d, at) == InputBackground::parse(d, at),
    {
        reveal(<Response as Wire>::parse);
        Self::routes_to_input_background(tag_of(d)->Some_0);
    }

    /// A discriminator of `Hashtags` belongs to the arm `Hashtags`.
    pub proof fn routes_to_hashtags(t: Seq<char>)
        requires
            Hashtags::known(t),
        ensures
            Self::route(t) == 181,
    {
        reveal_strlit("hashtags");
        assert("hashtags"@.len() == 8);
        Self::tags_spelled_8();
    }

    /// A document whose discriminator belongs to `Hashtags` decodes through the envelope exactly as
    /// it decodes through `Hashtags` itself.
    pub proof fn agrees_with_hashtags(d: Doc, at: Seq<char>)
        requires
            tag_of(d) is Some,
            Hashtags::known(tag_of(d)->Some_0),
        ensures
            Self::parse(d, at) == Hashtags::parse(d, at),
    {
        reveal(<Response as Wire>::parse);
        Self::routes_to_hashtags(tag_of(d)->Some_0);
    }

    /// A discriminator of `CanTransferOwnershipResult` belongs to the arm `CanTransferOwnershipResult`.
    pub proof fn routes_to_can_transfer_ownership_result(t: Seq<char>)
        requires
            CanTransferOwnershipResult::known(t),
        ensures
            Self::route(t) == 182,
    {
        reveal_strlit("canTransferOwnershipResultOk");
        reveal_strlit("canTransferOwnershipResultPasswordNeeded");
        reveal_strlit("canTransferOwnershipResultPasswordTooFresh");
        reveal_strlit("canTransferOwnershipResultSessionTooFresh");
        assert("canTransferOwnershipResultOk"@.len() == 28);
        assert("canTransferOwnershipResultPasswordNeeded"@.len() == 40);
        assert("canTransferOwnershipResultPasswordTooFresh"@.len() == 42);
        assert("canTransferOwnershipResultSessionTooFresh"@.len() == 41);
        Self::tags_spelled_28();
        Self::tags_spelled_40();
        Self::tags_spelled_41();
        Self::tags_spelled_42();
    }

    /// A document whose discriminator belongs to `CanTransferOwnershipResult` decodes through the
    /// envelope exactly as it decodes through `CanTransferOwnershipResult` itself.
    pub proof fn agrees_with_can_transfer_ownership_result(d: Doc, at: Seq<char>)
        requires
            tag_of(d) is Some,
            CanTransferOwnershipResult::known(tag_of(d)->Some_0),
        ensures
            Self::parse(d, at) == CanTransferOwnershipResult::parse(d, at),
    {
        reveal(<Response as Wire>::parse);
        Self::routes_to_can_transfer_ownership_result(tag_of(d)->Some_0);
    }

    /// A discriminator of `CheckChatUsernameResult` belongs to the arm `CheckChatUsernameResult`.
    pub proof fn routes_to_check_chat_username_result(t: Seq<char>)
        requires
            CheckChatUsernameResult::known(t),
        ensures
            Self::route(t) == 183,
    {
        reveal_strlit("checkChatUsernameResultOk");
        reveal_strlit("checkChatUsernameResultUsernameInvalid");
        reveal_strlit("checkChatUsernameResultUsernameOccupied");
        reveal_strlit("checkChatUsernameResultPublicChatsTooMuch");
        reveal_strlit("checkChatUsernameResultPublicGroupsUnavailable");
        assert("checkChatUsernameResultOk"@.len() == 25);
        assert("checkChatUsernameResultUsernameInvalid"@.len() == 38);
        assert("checkChatUsernameResultUsernameOccupied"@.len() == 39);
        assert("checkChatUsernameResultPublicChatsTooMuch"@.len() == 41);
        assert("checkChatUsernameResultPublicGroupsUnavailable"@.len() == 46);
        Self::tags_spelled_25();
        Self::tags_spelled_38();
        Self::tags_spelled_39();
        Self::tags_spelled_41();
        Self::tags_spelled_46();
    }

    /// A document whose discriminator belongs to `CheckChatUsernameResult` decodes through the
    /// envelope exactly as it decodes through `CheckChatUsernameResult` itself.
    pub proof fn agrees_with_check_chat_username_result(d: Doc, at: Seq<char>)
        requires
            tag_of(d) is Some,
            CheckChatUsernameResult::known(tag_of(d)->Some_0),
        ensures
            Self::parse(d, at) == CheckChatUsernameResult::parse(d, at),
    {
        reveal(<Response as Wire>::parse);
        Self::routes_to_check_chat_username_result(tag_of(d)->Some_0);
    }

    /// A discriminator of `PushMessageContent` belongs to the arm `PushMessageContent`.
    pub proof fn routes_to_push_message_content(t: Seq<char>)
        requires
            PushMessageContent::known(t),
        ensures
            Self::route(t) == 184,
    {
        reveal_strlit("pushMessageContentHidden");
        reveal_strlit("pushMessageContentAnimation");
        reveal_strlit("pushMessageContentAudio");
        reveal_strlit("pushMessageContentContact");
        reveal_strlit("pushMessageContentContactRegistered");
        reveal_strlit("pushMessageContentDocument");
        reveal_strlit("pushMessageContentGame");
        reveal_strlit("pushMessageContentGameScore");
        reveal_strlit("pushMessageContentInvoice");
        reveal_strlit("pushMessageContentLocation");
        reveal_strlit("pushMessageContentPhoto");
        reveal_strlit("pushMessageContentPoll");
        reveal_strlit("pushMessageContentScreenshotTaken");
        reveal_strlit("pushMessageContentSticker");
        reveal_strlit("pushMessageContentText");
        reveal_strlit("pushMessageContentVideo");
        reveal_strlit("pushMessageContentVideoNote");
        reveal_strlit("pushMessageContentVoiceNote");
        reveal_strlit("pushMessageContentBasicGroupChatCreate");
        reveal_strlit("pushMessageContentChatAddMembers");
        reveal_strlit("pushMessageContentChatChangePhoto");
        reveal_strlit("pushMessageContentChatChangeTitle");
        reveal_strlit("pushMessageContentChatDeleteMember");
        reveal_strlit("pushMessageContentChatJoinByLink");
        reveal_strlit("pushMessageContentMessageForwards");
        reveal_strlit("pushMessageContentMediaAlbum");
        assert("pushMessageContentHidden"@.len() == 24);
        assert("pushMessageContentAnimation"@.len() == 27);
        assert("pushMessageContentAudio"@.len() == 23);
        assert("pushMessageContentContact"@.len() == 25);
        assert("pushMessageContentContactRegistered"@.len() == 35);
        assert("pushMessageContentDocument"@.len() == 26);
        assert("pushMessageContentGame"@.len() == 22);
        assert("pushMessageContentGameScore"@.len() == 27);
        assert("pushMessageContentInvoice"@.len() == 25);
        assert("pushMessageContentLocation"@.len() == 26);
        assert("pushMessageContentPhoto"@.len() == 23);
        assert("pushMessageContentPoll"@.len() == 22);
        assert("pushMessageContentScreenshotTaken"@.len() == 33);
        assert("pushMessageContentSticker"@.len() == 25);
        assert("pushMessageContentText"@.len() == 22);
        assert("pushMessageContentVideo"@.len() == 23);
        assert("pushMessageContentVideoNote"@.len() == 27);
        assert("pushMessageContentVoiceNote"@.len() == 27);
        assert("pushMessageContentBasicGroupChatCreate"@.len() == 38);
        assert("pushMessageContentChatAddMembers"@.len() == 32);
        assert("pushMessageContentChatChangePhoto"@.len() == 33);
        assert("pushMessageContentChatChangeTitle"@.len() == 33);
        assert("pushMessageContentChatDeleteMember"@.len() == 34);
        assert("pushMessageContentChatJoinByLink"@.len() == 32);
        assert("pushMessageContentMessageForwards"@.len() == 33);
        assert("pushMessageContentMediaAlbum"@.len() == 28);
        Self::tags_spelled_22();
        Self::tags_spelled_23();
        Self::tags_spelled_24();
        Self::tags_spelled_25();
        Self::tags_spelled_26();
        Self::tags_spelled_27();
        Self::tags_spelled_28();
        Self::tags_spelled_32();
        Self::tags_spelled_33();
        Self::tags_spelled_34();
        Self::tags_spelled_35();
        Self::tags_spelled_38();
    }

    /// A document whose discriminator belongs to `PushMessageContent` decodes through the envelope
    /// exactly as it decodes through `PushMessageContent` itself.
    pub proof fn agrees_with_push_message_content(d: Doc, at: Seq<char>)
        requires
            tag_of(d) is Some,
            PushMessageContent::known(tag_of(d)->Some_0),
        ensures
            Self::parse(d, at) == PushMessageContent::parse(d, at),
    {
        reveal(<Response as Wire>::parse);
        Self::routes_to_push_message_content(tag_of(d)->Some_0);
    }

    /// A discriminator of `NotificationType` belongs to the arm `NotificationType`.
    pub proof fn routes_to_notification_type(t: Seq<char>)
        requires
            NotificationType::known(t),
        ensures
            Self::route(t) == 185,
    {
        reveal_strlit("notificationTypeNewMessage");
        reveal_strlit("notificationTypeNewSecretChat");
        reveal_strlit("notificationTypeNewCall");
        reveal_strlit("notificationTypeNewPushMessage");
        assert("notificationTypeNewMessage"@.len() == 26);
        assert("notificationTypeNewSecretChat"@.len() == 29);
        assert("notificationTypeNewCall"@.len() == 23);
        assert("notificationTypeNewPushMessage"@.len() == 30);
        Self::tags_spelled_23();
        Self::tags_spelled_26();
        Self::tags_spelled_29();
        Self::tags_spelled_30();
    }

    /// A document whose discriminator belongs to `NotificationType` decodes through the envelope
    /// exactly as it decodes through `NotificationType` itself.
    pub proof fn agrees_with_notification_type(d: Doc, at: Seq<char>)
        requires
            tag_of(d) is Some,
            NotificationType::known(tag_of(d)->Some_0),
        ensures
            Self::parse(d, at) == NotificationType::parse(d, at),
    {
        reveal(<Response as Wire>::parse);
        Self::routes_to_notification_type(tag_of(d)->Some_0);
    }

    /// A discriminator of `NotificationGroupType` belongs to the arm `NotificationGroupType`.
    pub proof fn routes_to_notification_group_type(t: Seq<char>)
        requires
            NotificationGroupType::known(t),
        ensures
            Self::route(t) == 186,
    {
        reveal_strlit("notificationGroupTypeMessages");
        reveal_strlit("notificationGroupTypeMentions");
        reveal_strlit("notificationGroupTypeSecretChat");
        reveal_strlit("notificationGroupTypeCalls");
        assert("notificationGroupTypeMessages"@.len() == 29);
        assert("notificationGroupTypeMentions"@.len() == 29);
        assert("notificationGroupTypeSecretChat"@.len() == 31);
        assert("notificationGroupTypeCalls"@.len() == 26);
        Self::tags_spelled_26();
        Self::tags_spelled_29();
        Self::tags_spelled_31();
    }

    /// A document whose discriminator belongs to `NotificationGroupType` decodes through the
    /// envelope exactly as it decodes through `NotificationGroupType` itself.
    pub proof fn agrees_with_notification_group_type(d: Doc, at: Seq<char>)
        requires
            tag_of(d) is Some,
            NotificationGroupType::known(tag_of(d)->Some_0),
        ensures
            Self::parse(d, at) == NotificationGroupType::parse(d, at),
    {
        reveal(<Response as Wire>::parse);
        Self::routes_to_notification_group_type(tag_of(d)->Some_0);
    }

    /// A discriminator of `Notification` belongs to the arm `Notification`.
    pub proof fn routes_to_notification(t: Seq<char>)
        requires
            Notification::known(t),
        ensures
            Self::route(t) == 187,
    {
        reveal_strlit("notification");
        assert("notification"@.len() == 12);
        Self::tags_spelled_12();
    }

    /// A document whose discriminator belongs to `Notification` decodes through the envelope
    /// exactly as it decodes through `Notification` itself.
    pub proof fn agrees_with_notification(d: Doc, at: Seq<char>)
        requires
            tag_of(d) is Some,
            Notification::known(tag_of(d)->Some_0),
        ensures
            Self::parse(d, at) == Notification::parse(d, at),
    {
        reveal(<Response as Wire>::parse);
        Self::routes_to_notification(tag_of(d)->Some_0);
    }

    /// A discriminator of `NotificationGroup` belongs to the arm `NotificationGroup`.
    pub proof fn routes_to_notification_group(t: Seq<char>)
        requires
            NotificationGroup::known(t),
        ensures
            Self::route(t) == 188,
    {
        reveal_strlit("notificationGroup");
        assert("notificationGroup"@.len() == 17);
        Self::tags_spelled_17();
    }

    /// A document whose discriminator belongs to `NotificationGroup` decodes through the envelope
    /// exactly as it decodes through `NotificationGroup` itself.
    pub proof fn agrees_with_notification_group(d: Doc, at: Seq<char>)
        requires
            tag_of(d) is Some,
            NotificationGroup::known(tag_of(d)->Some_0),
        ensures
            Self::parse(d, at) == NotificationGroup::parse(d, at),
    {
        reveal(<Response as Wire>::parse);
        Self::routes_to_notification_group(tag_of(d)->Some_0);
    }

    /// A discriminator of `OptionValue` belongs to the arm `OptionValue`.
    pub proof fn routes_to_option_value(t: Seq<char>)
        requires
            OptionValue::known(t),
        ensures
            Self::route(t) == 189,
    {
        reveal_strlit("optionValueBoolean");
        reveal_strlit("optionValueEmpty");
        reveal_strlit("optionValueInteger");
        reveal_strlit("optionValueString");
        assert("optionValueBoolean"@.len() == 18);
        assert("optionValueEmpty"@.len() == 16);
        assert("optionValueInteger"@.len() == 18);
        assert("optionValueString"@.len() == 17);
        Self::tags_spelled_16();
        Self::tags_spelled_17();
        Self::tags_spelled_18();
    }

    /// A document whose discriminator belongs to `OptionValue` decodes through the envelope exactly
    /// as it decodes through `OptionValue` itself.
    pub proof fn agrees_with_option_value(d: Doc, at: Seq<char>)
        requires
            tag_of(d) is Some,
            OptionValue::known(tag_of(d)->Some_0),
        ensures
            Self::parse(d, at) == OptionValue::parse(d, at),
    {
        reveal(<Response as Wire>::parse);
        Self::routes_to_option_value(tag_of(d)->Some_0);
    }

    /// A discriminator of `JsonObjectMember` belongs to the arm `JsonObjectMember`.
    pub proof fn routes_to_json_object_member(t: Seq<char>)
        requires
            JsonObjectMember::known(t),
        ensures
            Self::route(t) == 190,
    {
        reveal_strlit("jsonObjectMember");
        assert("jsonObjectMember"@.len() == 16);
        Self::tags_spelled_16();
    }

    /// A document whose discriminator belongs to `JsonObjectMember` decodes through the envelope
    /// exactly as it decodes through `JsonObjectMember` itself.
    pub proof fn agrees_with_json_object_member(d: Doc, at: Seq<char>)
        requires
            tag_of(d) is Some,
            JsonObjectMember::known(tag_of(d)->Some_0),
        ensures
            Self::parse(d, at) == JsonObjectMember::parse(d, at),
    {
        reveal(<Response as Wire>::parse);
        Self::routes_to_json_object_member(tag_of(d)->Some_0);
    }

    /// A discriminator of `JsonValue` belongs to the arm `JsonValue`.
    pub proof fn routes_to_json_value(t: Seq<char>)
        requires
            JsonValue::known(t),
        ensures
            Self::route(t) == 191,
    {
        reveal_strlit("jsonValueNull");
        reveal_strlit("jsonValueBoolean");
        reveal_strlit("jsonValueNumber");
        reveal_strlit("jsonValueString");
        reveal_strlit("jsonValueArray");
        reveal_strlit("jsonValueObject");
        assert("jsonValueNull"@.len() == 13);
        assert("jsonValueBoolean"@.len() == 16);
        assert("jsonValueNumber"@.len() == 15);
        assert("jsonValueString"@.len() == 15);
        assert("jsonValueArray"@.len() == 14);
        assert("jsonValueObject"@.len() == 15);
        Self::tags_spelled_13();
        Self::tags_spelled_14();
        Self::tags_spelled_15();
        Self::tags_spelled_16();
    }

    /// A document whose discriminator belongs to `JsonValue` decodes through the envelope exactly
    /// as it decodes through `JsonValue` itself.
    pub proof fn agrees_with_json_value(d: Doc, at: Seq<char>)
        requires
            tag_of(d) is Some,
            JsonValue::known(tag_of(d)->Some_0),
        ensures
            Self::parse(d, at) == JsonValue::parse(d, at),
    {
        reveal(<Response as Wire>::parse);
        Self::routes_to_json_value(tag_of(d)->Some_0);
    }

    /// A discriminator of `UserPrivacySettingRule` belongs to the arm `UserPrivacySettingRule`.
    pub proof fn routes_to_user_privacy_setting_rule(t: Seq<char>)
        requires
            UserPrivacySettingRule::known(t),
        ensures
            Self::route(t) == 192,
    {
        reveal_strlit("userPrivacySettingRuleAllowAll");
        reveal_strlit("userPrivacySettingRuleAllowContacts");
        reveal_strlit("userPrivacySettingRuleAllowUsers");
        reveal_strlit("userPrivacySettingRuleAllowChatMembers");
        reveal_strlit("userPrivacySettingRuleRestrictAll");
        reveal_strlit("userPrivacySettingRuleRestrictContacts");
        reveal_strlit("userPrivacySettingRuleRestrictUsers");
        reveal_strlit("userPrivacySettingRuleRestrictChatMembers");
        assert("userPrivacySettingRuleAllowAll"@.len() == 30);
        assert("userPrivacySettingRuleAllowContacts"@.len() == 35);
        assert("userPrivacySettingRuleAllowUsers"@.len() == 32);
        assert("userPrivacySettingRuleAllowChatMembers"@.len() == 38);
        assert("userPrivacySettingRuleRestrictAll"@.len() == 33);
        assert("userPrivacySettingRuleRestrictContacts"@.len() == 38);
        assert("userPrivacySettingRuleRestrictUsers"@.len() == 35);
        assert("userPrivacySettingRuleRestrictChatMembers"@.len() == 41);
        Self::tags_spelled_30();
        Self::tags_spelled_32();
        Self::tags_spelled_33();
        Self::tags_spelled_35();
        Self::tags_spelled_38();
        Self::tags_spelled_41();
    }

    /// A document whose discriminator belongs to `UserPrivacySettingRule` decodes through the
    /// envelope exactly as it decodes through `UserPrivacySettingRule` itself.
    pub proof fn agrees_with_user_privacy_setting_rule(d: Doc, at: Seq<char>)
        requires
            tag_of(d) is Some,
            UserPrivacySettingRule::known(tag_of(d)->Some_0),
        ensures
            Self::parse(d, at) == UserPrivacySettingRule::parse(d, at),
    {
        reveal(<Response as Wire>::parse);
        Self::routes_to_user_privacy_setting_rule(tag_of(d)->Some_0);
    }

    /// A discriminator of `UserPrivacySettingRules` belongs to the arm `UserPrivacySettingRules`.
    pub proof fn routes_to_user_privacy_setting_rules(t: Seq<char>)
        requires
            UserPrivacySettingRules::known(t),
        ensures
            Self::route(t) == 193,
    {
        reveal_strlit("userPrivacySettingRules");
        assert("userPrivacySettingRules"@.len() == 23);
        Self::tags_spelled_23();
    }

    /// A document whose discriminator belongs to `UserPrivacySettingRules` decodes through the
    /// envelope exactly as it decodes through `UserPrivacySettingRules` itself.
    pub proof fn agrees_with_user_privacy_setting_rules(d: Doc, at: Seq<char>)
        requires
            tag_of(d) is Some,
            UserPrivacySettingRules::known(tag_of(d)->Some_0),
        ensures
            Self::parse(d, at) == UserPrivacySettingRules::parse(d, at),
    {
        reveal(<Response as Wire>::parse);
        Self::routes_to_user_privacy_setting_rules(tag_of(d)->Some_0);
    }

    /// A discriminator of `UserPrivacySetting` belongs to the arm `UserPrivacySetting`.
    pub proof fn routes_to_user_privacy_setting(t: Seq<char>)
        requires
            UserPrivacySetting::known(t),
        ensures
            Self::route(t) == 194,
    {
        reveal_strlit("userPrivacySettingShowStatus");
        reveal_strlit("userPrivacySettingShowProfilePhoto");
        reveal_strlit("userPrivacySettingShowLinkInForwardedMessages");
        reveal_strlit("userPrivacySettingShowPhoneNumber");
        reveal_strlit("userPrivacySettingAllowChatInvites");
        reveal_strlit("userPrivacySettingAllowCalls");
        reveal_strlit("userPrivacySettingAllowPeerToPeerCalls");
        reveal_strlit("userPrivacySettingAllowFindingByPhoneNumber");
        assert("userPrivacySettingShowStatus"@.len() == 28);
        assert("userPrivacySettingShowProfilePhoto"@.len() == 34);
        assert("userPrivacySettingShowLinkInForwardedMessages"@.len() == 45);
        assert("userPrivacySettingShowPhoneNumber"@.len() == 33);
        assert("userPrivacySettingAllowChatInvites"@.len() == 34);
        assert("userPrivacySettingAllowCalls"@.len() == 28);
        assert("userPrivacySettingAllowPeerToPeerCalls"@.len() == 38);
        assert("userPrivacySettingAllowFindingByPhoneNumber"@.len() == 43);
        Self::tags_spelled_28();
        Self::tags_spelled_33();
        Self::tags_spelled_34();
        Self::tags_spelled_38();
        Self::tags_spelled_45();
    }

    /// A document whose discriminator belongs to `UserPrivacySetting` decodes through the envelope
    /// exactly as it decodes through `UserPrivacySetting` itself.
    pub proof fn agrees_with_user_privacy_setting(d: Doc, at: Seq<char>)
        requires
            tag_of(d) is Some,
            UserPrivacySetting::known(tag_of(d)->Some_0),
        ensures
            Self::parse(d, at) == UserPrivacySetting::parse(d, at),
    {
        reveal(<Response as Wire>::parse);
        Self::routes_to_user_privacy_setting(tag_of(d)->Some_0);
    }

    /// A discriminator of `AccountTtl` belongs to the arm `AccountTtl`.
    pub proof fn routes_to_account_ttl(t: Seq<char>)
        requires
            AccountTtl::known(t),
        ensures
            Self::route(t) == 195,
    {
        reveal_strlit("accountTtl");
        assert("accountTtl"@.len() == 10);
        Self::tags_spelled_10();
    }

    /// A document whose discriminator belongs to `AccountTtl` decodes through the envelope exactly
    /// as it decodes through `AccountTtl` itself.
    pub proof fn agrees_with_account_ttl(d: Doc, at: Seq<char>)
        requires
            tag_of(d) is Some,
            AccountTtl::known(tag_of(d)->Some_0),
        ensures
            Self::parse(d, at) == AccountTtl::parse(d, at),
    {
        reveal(<Response as Wire>::parse);
        Self::routes_to_account_ttl(tag_of(d)->Some_0);
    }

    /// A discriminator of `Session` belongs to the arm `Session`.
    pub proof fn routes_to_session(t: Seq<char>)
        requires
            Session::known(t),
        ensures
            Self::route(t) == 196,
    {
        reveal_strlit("session");
        assert("session"@.len() == 7);
        Self::tags_spelled_7();
    }

    /// A document whose discriminator belongs to `Session` decodes through the envelope exactly as
    /// it decodes through `Session` itself.
    pub proof fn agrees_with_session(d: Doc, at: Seq<char>)
        requires
            tag_of(d) is Some,
            Session::known(tag_of(d)->Some_0),
        ensures
            Self::parse(d, at) == Session::parse(d, at),
    {
        reveal(<Response as Wire>::parse);
        Self::routes_to_session(tag_of(d)->Some_0);
    }

    /// A discriminator of `Sessions` belongs to the arm `Sessions`.
    pub proof fn routes_to_sessions(t: Seq<char>)
        requires
            Sessions::known(t),
        ensures
            Self::route(t) == 197,
    {
        reveal_strlit("sessions");
        assert("sessions"@.len() == 8);
        Self::tags_spelled_8();
    }

    /// A document whose discriminator belongs to `Sessions` decodes through the envelope exactly as
    /// it decodes through `Sessions` itself.
    pub proof fn agrees_with_sessions(d: Doc, at: Seq<char>)
        requires
            tag_of(d) is Some,
            Sessions::known(tag_of(d)->Some_0),
        ensures
            Self::parse(d, at) == Sessions::parse(d, at),
    {
        reveal(<Response as Wire>::parse);
        Self::routes_to_sessions(tag_of(d)->Some_0);
    }

    /// A discriminator of `ConnectedWebsite` belongs to the arm `ConnectedWebsite`.
    pub proof fn routes_to_connected_website(t: Seq<char>)
        requires
            ConnectedWebsite::known(t),
        ensures
            Self::route(t) == 198,
    {
        reveal_strlit("connectedWebsite");
        assert("connectedWebsite"@.len() == 16);
        Self::tags_spelled_16();
    }

    /// A document whose discriminator belongs to `ConnectedWebsite` decodes through the envelope
    /// exactly as it decodes through `ConnectedWebsite` itself.
    pub proof fn agrees_with_connected_website(d: Doc, at: Seq<char>)
        requires
            tag_of(d) is Some,
            ConnectedWebsite::known(tag_of(d)->Some_0),
        ensures
            Self::parse(d, at) == ConnectedWebsite::parse(d, at),
    {
        reveal(<Response as Wire>::parse);
        Self::routes_to_connected_website(tag_of(d)->Some_0);
    }

    /// A discriminator of `ConnectedWebsites` belongs to the arm `ConnectedWebsites`.
    pub proof fn routes_to_connected_websites(t: Seq<char>)
        requires
            ConnectedWebsites::known(t),
        ensures
            Self::route(t) == 199,
    {
        reveal_strlit("connectedWebsites");
        assert("connectedWebsites"@.len() == 17);
        Self::tags_spelled_17();
    }

    /// A document whose discriminator belongs to `ConnectedWebsites` decodes through the envelope
    /// exactly as it decodes through `ConnectedWebsites` itself.
    pub proof fn agrees_with_connected_websites(d: Doc, at: Seq<char>)
        requires
            tag_of(d) is Some,
            ConnectedWebsites::known(tag_of(d)->Some_0),
        ensures
            Self::parse(d, at) == ConnectedWebsites::parse(d, at),
    {
        reveal(<Response as Wire>::parse);
        Self::routes_to_connected_websites(tag_of(d)->Some_0);
    }

    /// A discriminator of `ChatReportReason` belongs to the arm `ChatReportReason`.
    pub proof fn routes_to_chat_report_reason(t: Seq<char>)
        requires
            ChatReportReason::known(t),
        ensures
            Self::route(t) == 200,
    {
        reveal_strlit("chatReportReasonSpam");
        reveal_strlit("chatReportReasonViolence");
        reveal_strlit("chatReportReasonPornography");
        reveal_strlit("chatReportReasonChildAbuse");
        reveal_strlit("chatReportReasonCopyright");
        reveal_strlit("chatReportReasonUnrelatedLocation");
        reveal_strlit("chatReportReasonCustom");
        assert("chatReportReasonSpam"@.len() == 20);
        assert("chatReportReasonViolence"@.len() == 24);
        assert("chatReportReasonPornography"@.len() == 27);
        assert("chatReportReasonChildAbuse"@.len() == 26);
        assert("chatReportReasonCopyright"@.len() == 25);
        assert("chatReportReasonUnrelatedLocation"@.len() == 33);
        assert("chatReportReasonCustom"@.len() == 22);
        Self::tags_spelled_20();
        Self::tags_spelled_22();
        Self::tags_spelled_24();
        Self::tags_spelled_25();
        Self::tags_spelled_26();
        Self::tags_spelled_27();
        Self::tags_spelled_33();
    }

    /// A document whose discriminator belongs to `ChatReportReason` decodes through the envelope
    /// exactly as it decodes through `ChatReportReason` itself.
    pub proof fn agrees_with_chat_report_reason(d: Doc, at: Seq<char>)
        requires
            tag_of(d) is Some,
            ChatReportReason::known(tag_of(d)->Some_0),
        ensures
            Self::parse(d, at) == ChatReportReason::parse(d, at),
    {
        reveal(<Response as Wire>::parse);
        Self::routes_to_chat_report_reason(tag_of(d)->Some_0);
    }

    /// A discriminator of `PublicMessageLink` belongs to the arm `PublicMessageLink`.
    pub proof fn routes_to_public_message_link(t: Seq<char>)
        requires
            PublicMessageLink::known(t),
        ensures
            Self::route(t) == 201,
    {
        reveal_strlit("publicMessageLink");
        assert("publicMessageLink"@.len() == 17);
        Self::tags_spelled_17();
    }

    /// A document whose discriminator belongs to `PublicMessageLink` decodes through the envelope
    /// exactly as it decodes through `PublicMessageLink` itself.
    pub proof fn agrees_with_public_message_link(d: Doc, at: Seq<char>)
        requires
            tag_of(d) is Some,
            PublicMessageLink::known(tag_of(d)->Some_0),
        ensures
            Self::parse(d, at) == PublicMessageLink::parse(d, at),
    {
        reveal(<Response as Wire>::parse);
        Self::routes_to_public_message_link(tag_of(d)->Some_0);
    }

    /// A discriminator of `MessageLinkInfo` belongs to the arm `MessageLinkInfo`.
    pub proof fn routes_to_message_link_info(t: Seq<char>)
        requires
            MessageLinkInfo::known(t),
        ensures
            Self::route(t) == 202,
    {
        reveal_strlit("messageLinkInfo");
        assert("messageLinkInfo"@.len() == 15);
        Self::tags_spelled_15();
    }

    /// A document whose discriminator belongs to `MessageLinkInfo` decodes through the envelope
    /// exactly as it decodes through `MessageLinkInfo` itself.
    pub proof fn agrees_with_message_link_info(d: Doc, at: Seq<char>)
        requires
            tag_of(d) is Some,
            MessageLinkInfo::known(tag_of(d)->Some_0),
        ensures
            Self::parse(d, at) == MessageLinkInfo::parse(d, at),
    {
        reveal(<Response as Wire>::parse);
        Self::routes_to_message_link_info(tag_of(d)->Some_0);
    }

    /// A discriminator of `FilePart` belongs to the arm `FilePart`.
    pub proof fn routes_to_file_part(t: Seq<char>)
        requires
            FilePart::known(t),
        ensures
            Self::route(t) == 203,
    {
        reveal_strlit("filePart");
        assert("filePart"@.len() == 8);
        Self::tags_spelled_8();
    }

    /// A document whose discriminator belongs to `FilePart` decodes through the envelope exactly as
    /// it decodes through `FilePart` itself.
    pub proof fn agrees_with_file_part(d: Doc, at: Seq<char>)
        requires
            tag_of(d) is Some,
            FilePart::known(tag_of(d)->Some_0),
        ensures
            Self::parse(d, at) == FilePart::parse(d, at),
    {
        reveal(<Response as Wire>::parse);
        Self::routes_to_file_part(tag_of(d)->Some_0);
    }

    /// A discriminator of `FileType` belongs to the arm `FileType`.
    pub proof fn routes_to_file_type(t: Seq<char>)
        requires
            FileType::known(t),
        ensures
            Self::route(t) == 204,
    {
        reveal_strlit("fileTypeNone");
        reveal_strlit("fileTypeAnimation");
        reveal_strlit("fileTypeAudio");
        reveal_strlit("fileTypeDocument");
        reveal_strlit("fileTypePhoto");
        reveal_strlit("fileTypeProfilePhoto");
        reveal_strlit("fileTypeSecret");
        reveal_strlit("fileTypeSecretThumbnail");
        reveal_strlit("fileTypeSecure");
        reveal_strlit("fileTypeSticker");
        reveal_strlit("fileTypeThumbnail");
        reveal_strlit("fileTypeUnknown");
        reveal_strlit("fileTypeVideo");
        reveal_strlit("fileTypeVideoNote");
        reveal_strlit("fileTypeVoiceNote");
        reveal_strlit("fileTypeWallpaper");
        assert("fileTypeNone"@.len() == 12);
        assert("fileTypeAnimation"@.len() == 17);
        assert("fileTypeAudio"@.len() == 13);
        assert("fileTypeDocument"@.len() == 16);
        assert("fileTypePhoto"@.len() == 13);
        assert("fileTypeProfilePhoto"@.len() == 20);
        assert("fileTypeSecret"@.len() == 14);
        assert("fileTypeSecretThumbnail"@.len() == 23);
        assert("fileTypeSecure"@.len() == 14);
        assert("fileTypeSticker"@.len() == 15);
        assert("fileTypeThumbnail"@.len() == 17);
        assert("fileTypeUnknown"@.len() == 15);
        assert("fileTypeVideo"@.len() == 13);
        assert("fileTypeVideoNote"@.len() == 17);
        assert("fileTypeVoiceNote"@.len() == 17);
        assert("fileTypeWallpaper"@.len() == 17);
        Self::tags_spelled_12();
        Self::tags_spelled_13();
        Self::tags_spelled_14();
        Self::tags_spelled_15();
        Self::tags_spelled_16();
        Self::tags_spelled_17();
        Self::tags_spelled_20();
        Self::tags_spelled_23();
    }

    /// A document whose discriminator belongs to `FileType` decodes through the envelope exactly as
    /// it decodes through `FileType` itself.
    pub proof fn agrees_with_file_type(d: Doc, at: Seq<char>)
        requires
            tag_of(d) is Some,
            FileType::known(tag_of(d)->Some_0),
        ensures
            Self::parse(d, at) == FileType::parse(d, at),
    {
        reveal(<Response as Wire>::parse);
        Self::routes_to_file_type(tag_of(d)->Some_0);
    }

    /// A discriminator of `StorageStatisticsByFileType` belongs to the arm `StorageStatisticsByFileType`.
    pub proof fn routes_to_storage_statistics_by_file_type(t: Seq<char>)
        requires
            StorageStatisticsByFileType::known(t),
        ensures
            Self::route(t) == 205,
    {
        reveal_strlit("storageStatisticsByFileType");
        assert("storageStatisticsByFileType"@.len() == 27);
        Self::tags_spelled_27();
    }

    /// A document whose discriminator belongs to `StorageStatisticsByFileType` decodes through the
    /// envelope exactly as it decodes through `StorageStatisticsByFileType` itself.
    pub proof fn agrees_with_storage_statistics_by_file_type(d: Doc, at: Seq<char>)
        requires
            tag_of(d) is Some,
            StorageStatisticsByFileType::known(tag_of(d)->Some_0),
        ensures
            Self::parse(d, at) == StorageStatisticsByFileType::parse(d, at),
    {
        reveal(<Response as Wire>::parse);
        Self::routes_to_storage_statistics_by_file_type(tag_of(d)->Some_0);
    }

    /// A discriminator of `StorageStatisticsByChat` belongs to the arm `StorageStatisticsByChat`.
    pub proof fn routes_to_storage_statistics_by_chat(t: Seq<char>)
        requires
            StorageStatisticsByChat::known(t),
        ensures
            Self::route(t) == 206,
    {
        reveal_strlit("storageStatisticsByChat");
        assert("storageStatisticsByChat"@.len() == 23);
        Self::tags_spelled_23();
    }

    /// A document whose discriminator belongs to `StorageStatisticsByChat` decodes through the
    /// envelope exactly as it decodes through `StorageStatisticsByChat` itself.
    pub proof fn agrees_with_storage_statistics_by_chat(d: Doc, at: Seq<char>)
        requires
            tag_of(d) is Some,
            StorageStatisticsByChat::known(tag_of(d)->Some_0),
        ensures
            Self::parse(d, at) == StorageStatisticsByChat::parse(d, at),
    {
        reveal(<Response as Wire>::parse);
        Self::routes_to_storage_statistics_by_chat(tag_of(d)->Some_0);
    }

    /// A discriminator of `StorageStatistics` belongs to the arm `StorageStatistics`.
    pub proof fn routes_to_storage_statistics(t: Seq<char>)
        requires
            StorageStatistics::known(t),
        ensures
            Self::route(t) == 207,
    {
        reveal_strlit("storageStatistics");
        assert("storageStatistics"@.len() == 17);
        Self::tags_spelled_17();
    }

    /// A document whose discriminator belongs to `StorageStatistics` decodes through the envelope
    /// exactly as it decodes through `StorageStatistics` itself.
    pub proof fn agrees_with_storage_statistics(d: Doc, at: Seq<char>)
        requires
            tag_of(d) is Some,
            StorageStatistics::known(tag_of(d)->Some_0),
        ensures
            Self::parse(d, at) == StorageStatistics::parse(d, at),
    {
        reveal(<Response as Wire>::parse);
        Self::routes_to_storage_statistics(tag_of(d)->Some_0);
    }

    /// A discriminator of `StorageStatisticsFast` belongs to the arm `StorageStatisticsFast`.
    pub proof fn routes_to_storage_statistics_fast(t: Seq<char>)
        requires
            StorageStatisticsFast::known(t),
        ensures
            Self::route(t) == 208,
    {
        reveal_strlit("storageStatisticsFast");
        assert("storageStatisticsFast"@.len() == 21);
        Self::tags_spelled_21();
    }

    /// A document whose discriminator belongs to `StorageStatisticsFast` decodes through the
    /// envelope exactly as it decodes through `StorageStatisticsFast` itself.
    pub proof fn agrees_with_storage_statistics_fast(d: Doc, at: Seq<char>)
        requires
            tag_of(d) is Some,
            StorageStatisticsFast::known(tag_of(d)->Some_0),
        ensures
            Self::parse(d, at) == StorageStatisticsFast::parse(d, at),
    {
        reveal(<Response as Wire>::parse);
        Self::routes_to_storage_statistics_fast(tag_of(d)->Some_0);
    }

    /// A discriminator of `DatabaseStatistics` belongs to the arm `DatabaseStatistics`.
    pub proof fn routes_to_database_statistics(t: Seq<char>)
        requires
            DatabaseStatistics::known(t),
        ensures
            Self::route(t) == 209,
    {
        reveal_strlit("databaseStatistics");
        assert("databaseStatistics"@.len() == 18);
        Self::tags_spelled_18();
    }

    /// A document whose discriminator belongs to `DatabaseStatistics` decodes through the envelope
    /// exactly as it decodes through `DatabaseStatistics` itself.
    pub proof fn agrees_with_database_statistics(d: Doc, at: Seq<char>)
        requires
            tag_of(d) is Some,
            DatabaseStatistics::known(tag_of(d)->Some_0),
        ensures
            Self::parse(d, at) == DatabaseStatistics::parse(d, at),
    {
        reveal(<Response as Wire>::parse);
        Self::routes_to_database_statistics(tag_of(d)->Some_0);
    }

    /// A discriminator of `NetworkType` belongs to the arm `NetworkType`.
    pub proof fn routes_to_network_type(t: Seq<char>)
        requires
            NetworkType::known(t),
        ensures
            Self::route(t) == 210,
    {
        reveal_strlit("networkTypeNone");
        reveal_strlit("networkTypeMobile");
        reveal_strlit("networkTypeMobileRoaming");
        reveal_strlit("networkTypeWiFi");
        reveal_strlit("networkTypeOther");
        assert("networkTypeNone"@.len() == 15);
        assert("networkTypeMobile"@.len() == 17);
        assert("networkTypeMobileRoaming"@.len() == 24);
        assert("networkTypeWiFi"@.len() == 15);
        assert("networkTypeOther"@.len() == 16);
        Self::tags_spelled_15();
        Self::tags_spelled_16();
        Self::tags_spelled_17();
        Self::tags_spelled_24();
    }

    /// A document whose discriminator belongs to `NetworkType` decodes through the envelope exactly
    /// as it decodes through `NetworkType` itself.
    pub proof fn agrees_with_network_type(d: Doc, at: Seq<char>)
        requires
            tag_of(d) is Some,
            NetworkType::known(tag_of(d)->Some_0),
        ensures
            Self::parse(d, at) == NetworkType::parse(d, at),
    {
        reveal(<Response as Wire>::parse);
        Self::routes_to_network_type(tag_of(d)->Some_0);
    }

    /// A discriminator of `NetworkStatisticsEntry` belongs to the arm `NetworkStatisticsEntry`.
    pub proof fn routes_to_network_statistics_entry(t: Seq<char>)
        requires
            NetworkStatisticsEntry::known(t),
        ensures
            Self::route(t) == 211,
    {
        reveal_strlit("networkStatisticsEntryFile");
        reveal_strlit("networkStatisticsEntryCall");
        assert("networkStatisticsEntryFile"@.len() == 26);
        assert("networkStatisticsEntryCall"@.len() == 26);
        Self::tags_spelled_26();
    }

    /// A document whose discriminator belongs to `NetworkStatisticsEntry` decodes through the
    /// envelope exactly as it decodes through `NetworkStatisticsEntry` itself.
    pub proof fn agrees_with_network_statistics_entry(d: Doc, at: Seq<char>)
        requires
            tag_of(d) is Some,
            NetworkStatisticsEntry::known(tag_of(d)->Some_0),
        ensures
            Self::parse(d, at) == NetworkStatisticsEntry::parse(d, at),
    {
        reveal(<Response as Wire>::parse);
        Self::routes_to_network_statistics_entry(tag_of(d)->Some_0);
    }

    /// A discriminator of `NetworkStatistics` belongs to the arm `NetworkStatistics`.
    pub proof fn routes_to_network_statistics(t: Seq<char>)
        requires
            NetworkStatistics::known(t),
        ensures
            Self::route(t) == 212,
    {
        reveal_strlit("networkStatistics");
        assert("networkStatistics"@.len() == 17);
        Self::tags_spelled_17();
    }

    /// A document whose discriminator belongs to `NetworkStatistics` decodes through the envelope
    /// exactly as it decodes through `NetworkStatistics` itself.
    pub proof fn agrees_with_network_statistics(d: Doc, at: Seq<char>)
        requires
            tag_of(d) is Some,
            NetworkStatistics::known(tag_of(d)->Some_0),
        ensures
            Self::parse(d, at) == NetworkStatistics::parse(d, at),
    {
        reveal(<Response as Wire>::parse);
        Self::routes_to_network_statistics(tag_of(d)->Some_0);
    }

    /// A discriminator of `AutoDownloadSettings` belongs to the arm `AutoDownloadSettings`.
    pub proof fn routes_to_auto_download_settings(t: Seq<char>)
        requires
            AutoDownloadSettings::known(t),
        ensures
            Self::route(t) == 213,
    {
        reveal_strlit("autoDownloadSettings");
        assert("autoDownloadSettings"@.len() == 20);
        Self::tags_spelled_20();
    }

    /// A document whose discriminator belongs to `AutoDownloadSettings` decodes through the
    /// envelope exactly as it decodes through `AutoDownloadSettings` itself.
    pub proof fn agrees_with_auto_download_settings(d: Doc, at: Seq<char>)
        requires
            tag_of(d) is Some,
            AutoDownloadSettings::known(tag_of(d)->Some_0),
        ensures
            Self::parse(d, at) == AutoDownloadSettings::parse(d, at),
    {
        reveal(<Response as Wire>::parse);
        Self::routes_to_auto_download_settings(tag_of(d)->Some_0);
    }

    /// A discriminator of `AutoDownloadSettingsPresets` belongs to the arm `AutoDownloadSettingsPresets`.
    pub proof fn routes_to_auto_download_settings_presets(t: Seq<char>)
        requires
            AutoDownloadSettingsPresets::known(t),
        ensures
            Self::route(t) == 214,
    {
        reveal_strlit("autoDownloadSettingsPresets");
        assert("autoDownloadSettingsPresets"@.len() == 27);
        Self::tags_spelled_27();
    }

    /// A document whose discriminator belongs to `AutoDownloadSettingsPresets` decodes through the
    /// envelope exactly as it decodes through `AutoDownloadSettingsPresets` itself.
    pub proof fn agrees_with_auto_download_settings_presets(d: Doc, at: Seq<char>)
        requires
            tag_of(d) is Some,
            AutoDownloadSettingsPresets::known(tag_of(d)->Some_0),
        ensures
            Self::parse(d, at) == AutoDownloadSettingsPresets::parse(d, at),
    {
        reveal(<Response as Wire>::parse);
        Self::routes_to_auto_download_settings_presets(tag_of(d)->Some_0);
    }

    /// A discriminator of `ConnectionState` belongs to the arm `ConnectionState`.
    pub proof fn routes_to_connection_state(t: Seq<char>)
        requires
            ConnectionState::known(t),
        ensures
            Self::route(t) == 215,
    {
        reveal_strlit("connectionStateWaitingForNetwork");
        reveal_strlit("connectionStateConnectingToProxy");
        reveal_strlit("connectionStateConnecting");
        reveal_strlit("connectionStateUpdating");
        reveal_strlit("connectionStateReady");
        assert("connectionStateWaitingForNetwork"@.len() == 32);
        assert("connectionStateConnectingToProxy"@.len() == 32);
        assert("connectionStateConnecting"@.len() == 25);
        assert("connectionStateUpdating"@.len() == 23);
        assert("connectionStateReady"@.len() == 20);
        Self::tags_spelled_20();
        Self::tags_spelled_23();
        Self::tags_spelled_25();
        Self::tags_spelled_32();
    }

    /// A document whose discriminator belongs to `ConnectionState` decodes through the envelope
    /// exactly as it decodes through `ConnectionState` itself.
    pub proof fn agrees_with_connection_state(d: Doc, at: Seq<char>)
        requires
            tag_of(d) is Some,
            ConnectionState::known(tag_of(d)->Some_0),
        ensures
            Self::parse(d, at) == ConnectionState::parse(d, at),
    {
        reveal(<Response as Wire>::parse);
        Self::routes_to_connection_state(tag_of(d)->Some_0);
    }

    /// A discriminator of `TopChatCategory` belongs to the arm `TopChatCategory`.
    pub proof fn routes_to_top_chat_category(t: Seq<char>)
        requires
            TopChatCategory::known(t),
        ensures
            Self::route(t) == 216,
    {
        reveal_strlit("topChatCategoryUsers");
        reveal_strlit("topChatCategoryBots");
        reveal_strlit("topChatCategoryGroups");
        reveal_strlit("topChatCategoryChannels");
        reveal_strlit("topChatCategoryInlineBots");
        reveal_strlit("topChatCategoryCalls");
        reveal_strlit("topChatCategoryForwardChats");
        assert("topChatCategoryUsers"@.len() == 20);
        assert("topChatCategoryBots"@.len() == 19);
        assert("topChatCategoryGroups"@.len() == 21);
        assert("topChatCategoryChannels"@.len() == 23);
        assert("topChatCategoryInlineBots"@.len() == 25);
        assert("topChatCategoryCalls"@.len() == 20);
        assert("topChatCategoryForwardChats"@.len() == 27);
        Self::tags_spelled_19();
        Self::tags_spelled_20();
        Self::tags_spelled_21();
        Self::tags_spelled_23();
        Self::tags_spelled_25();
        Self::tags_spelled_27();
    }

    /// A document whose discriminator belongs to `TopChatCategory` decodes through the envelope
    /// exactly as it decodes through `TopChatCategory` itself.
    pub proof fn agrees_with_top_chat_category(d: Doc, at: Seq<char>)
        requires
            tag_of(d) is Some,
            TopChatCategory::known(tag_of(d)->Some_0),
        ensures
            Self::parse(d, at) == TopChatCategory::parse(d, at),
    {
        reveal(<Response as Wire>::parse);
        Self::routes_to_top_chat_category(tag_of(d)->Some_0);
    }

    /// A discriminator of `TMeUrlType` belongs to the arm `TMeUrlType`.
    pub proof fn routes_to_t_me_url_type(t: Seq<char>)
        requires
            TMeUrlType::known(t),
        ensures
            Self::route(t) == 217,
    {
        reveal_strlit("tMeUrlTypeUser");
        reveal_strlit("tMeUrlTypeSupergroup");
        reveal_strlit("tMeUrlTypeChatInvite");
        reveal_strlit("tMeUrlTypeStickerSet");
        assert("tMeUrlTypeUser"@.len() == 14);
        assert("tMeUrlTypeSupergroup"@.len() == 20);
        assert("tMeUrlTypeChatInvite"@.len() == 20);
        assert("tMeUrlTypeStickerSet"@.len() == 20);
        Self::tags_spelled_14();
        Self::tags_spelled_20();
    }

    /// A document whose discriminator belongs to `TMeUrlType` decodes through the envelope exactly
    /// as it decodes through `TMeUrlType` itself.
    pub proof fn agrees_with_t_me_url_type(d: Doc, at: Seq<char>)
        requires
            tag_of(d) is Some,
            TMeUrlType::known(tag_of(d)->Some_0),
        ensures
            Self::parse(d, at) == TMeUrlType::parse(d, at),
    {
        reveal(<Response as Wire>::parse);
        Self::routes_to_t_me_url_type(tag_of(d)->Some_0);
    }

    /// A discriminator of `TMeUrl` belongs to the arm `TMeUrl`.
    pub proof fn routes_to_t_me_url(t: Seq<char>)
        requires
            TMeUrl::known(t),
        ensures
            Self::route(t) == 218,
    {
        reveal_strlit("tMeUrl");
        assert("tMeUrl"@.len() == 6);
        Self::tags_spelled_6();
    }

    /// A document whose discriminator belongs to `TMeUrl` decodes through the envelope exactly as
    /// it decodes through `TMeUrl` itself.
    pub proof fn agrees_with_t_me_url(d: Doc, at: Seq<char>)
        requires
            tag_of(d) is Some,
            TMeUrl::known(tag_of(d)->Some_0),
        ensures
            Self::parse(d, at) == TMeUrl::parse(d, at),
    {
        reveal(<Response as Wire>::parse);
        Self::routes_to_t_me_url(tag_of(d)->Some_0);
    }

    /// A discriminator of `TMeUrls` belongs to the arm `TMeUrls`.
    pub proof fn routes_to_t_me_urls(t: Seq<char>)
        requires
            TMeUrls::known(t),
        ensures
            Self::route(t) == 219,
    {
        reveal_strlit("tMeUrls");
        assert("tMeUrls"@.len() == 7);
        Self::tags_spelled_7();
    }

    /// A document whose discriminator belongs to `TMeUrls` decodes through the envelope exactly as
    /// it decodes through `TMeUrls` itself.
    pub proof fn agrees_with_t_me_urls(d: Doc, at: Seq<char>)
        requires
            tag_of(d) is Some,
            TMeUrls::known(tag_of(d)->Some_0),
        ensures
            Self::parse(d, at) == TMeUrls::parse(d, at),
    {
        reveal(<Response as Wire>::parse);
        Self::routes_to_t_me_urls(tag_of(d)->Some_0);
    }

    /// A discriminator of `Count` belongs to the arm `Count`.
    pub proof fn routes_to_count(t: Seq<char>)
        requires
            Count::known(t),
        ensures
            Self::route(t) == 220,
    {
        reveal_strlit("count");
        assert("count"@.len() == 5);
        Self::tags_spelled_5();
    }

    /// A document whose discriminator belongs to `Count` decodes through the envelope exactly as it
    /// decodes through `Count` itself.
    pub proof fn agrees_with_count(d: Doc, at: Seq<char>)
        requires
            tag_of(d) is Some,
            Count::known(tag_of(d)->Some_0),
        ensures
            Self::parse(d, at) == Count::parse(d, at),
    {
        reveal(<Response as Wire>::parse);
        Self::routes_to_count(tag_of(d)->Some_0);
    }

    /// A discriminator of `Text` belongs to the arm `Text`.
    pub proof fn routes_to_text(t: Seq<char>)
        requires
            Text::known(t),
        ensures
            Self::route(t) == 221,
    {
        reveal_strlit("text");
        assert("text"@.len() == 4);
        Self::tags_spelled_4();
    }

    /// A document whose discriminator belongs to `Text` decodes through the envelope exactly as it
    /// decodes through `Text` itself.
    pub proof fn agrees_with_text(d: Doc, at: Seq<char>)
        requires
            tag_of(d) is Some,
            Text::known(tag_of(d)->Some_0),
        ensures
            Self::parse(d, at) == Text::parse(d, at),
    {
        reveal(<Response as Wire>::parse);
        Self::routes_to_text(tag_of(d)->Some_0);
    }

    /// A discriminator of `Seconds` belongs to the arm `Seconds`.
    pub proof fn routes_to_seconds(t: Seq<char>)
        requires
            Seconds::known(t),
        ensures
            Self::route(t) == 222,
    {
        reveal_strlit("seconds");
        assert("seconds"@.len() == 7);
        Self::tags_spelled_7();
    }

    /// A document whose discriminator belongs to `Seconds` decodes through the envelope exactly as
    /// it decodes through `Seconds` itself.
    pub proof fn agrees_with_seconds(d: Doc, at: Seq<char>)
        requires
            tag_of(d) is Some,
            Seconds::known(tag_of(d)->Some_0),
        ensures
            Self::parse(d, at) == Seconds::parse(d, at),
    {
        reveal(<Response as Wire>::parse);
        Self::routes_to_seconds(tag_of(d)->Some_0);
    }

    /// A discriminator of `DeepLinkInfo` belongs to the arm `DeepLinkInfo`.
    pub proof fn routes_to_deep_link_info(t: Seq<char>)
        requires
            DeepLinkInfo::known(t),
        ensures
            Self::route(t) == 223,
    {
        reveal_strlit("deepLinkInfo");
        assert("deepLinkInfo"@.len() == 12);
        Self::tags_spelled_12();
    }

    /// A document whose discriminator belongs to `DeepLinkInfo` decodes through the envelope
    /// exactly as it decodes through `DeepLinkInfo` itself.
    pub proof fn agrees_with_deep_link_info(d: Doc, at: Seq<char>)
        requires
            tag_of(d) is Some,
            DeepLinkInfo::known(tag_of(d)->Some_0),
        ensures
            Self::parse(d, at) == DeepLinkInfo::parse(d, at),
    {
        reveal(<Response as Wire>::parse);
        Self::routes_to_deep_link_info(tag_of(d)->Some_0);
    }

    /// A discriminator of `TextParseMode` belongs to the arm `TextParseMode`.
    pub proof fn routes_to_text_parse_mode(t: Seq<char>)
        requires
            TextParseMode::known(t),
        ensures
            Self::route(t) == 224,
    {
        reveal_strlit("textParseModeMarkdown");
        reveal_strlit("textParseModeHTML");
        assert("textParseModeMarkdown"@.len() == 21);
        assert("textParseModeHTML"@.len() == 17);
        Self::tags_spelled_17();
        Self::tags_spelled_21();
    }

    /// A document whose discriminator belongs to `TextParseMode` decodes through the envelope
    /// exactly as it decodes through `TextParseMode` itself.
    pub proof fn agrees_with_text_parse_mode(d: Doc, at: Seq<char>)
        requires
            tag_of(d) is Some,
            TextParseMode::known(tag_of(d)->Some_0),
        ensures
            Self::parse(d, at) == TextParseMode::parse(d, at),
    {
        reveal(<Response as Wire>::parse);
        Self::routes_to_text_parse_mode(tag_of(d)->Some_0);
    }

    /// A discriminator of `ProxyType` belongs to the arm `ProxyType`.
    pub proof fn routes_to_proxy_type(t: Seq<char>)
        requires
            ProxyType::known(t),
        ensures
            Self::route(t) == 225,
    {
        reveal_strlit("proxyTypeSocks5");
        reveal_strlit("proxyTypeHttp");
        reveal_strlit("proxyTypeMtproto");
        assert("proxyTypeSocks5"@.len() == 15);
        assert("proxyTypeHttp"@.len() == 13);
        assert("proxyTypeMtproto"@.len() == 16);
        Self::tags_spelled_13();
        Self::tags_spelled_15();
        Self::tags_spelled_16();
    }

    /// A document whose discriminator belongs to `ProxyType` decodes through the envelope exactly
    /// as it decodes through `ProxyType` itself.
    pub proof fn agrees_with_proxy_type(d: Doc, at: Seq<char>)
        requires
            tag_of(d) is Some,
            ProxyType::known(tag_of(d)->Some_0),
        ensures
            Self::parse(d, at) == ProxyType::parse(d, at),
    {
        reveal(<Response as Wire>::parse);
        Self::routes_to_proxy_type(tag_of(d)->Some_0);
    }

    /// A discriminator of `Proxy` belongs to the arm `Proxy`.
    pub proof fn routes_to_proxy(t: Seq<char>)
        requires
            Proxy::known(t),
        ensures
            Self::route(t) == 226,
    {
        reveal_strlit("proxy");
        assert("proxy"@.len() == 5);
        Self::tags_spelled_5();
    }

    /// A document whose discriminator belongs to `Proxy` decodes through the envelope exactly as it
    /// decodes through `Proxy` itself.
    pub proof fn agrees_with_proxy(d: Doc, at: Seq<char>)
        requires
            tag_of(d) is Some,
            Proxy::known(tag_of(d)->Some_0),
        ensures
            Self::parse(d, at) == Proxy::parse(d, at),
    {
        reveal(<Response as Wire>::parse);
        Self::routes_to_proxy(tag_of(d)->Some_0);
    }

    /// A discriminator of `Proxies` belongs to the arm `Proxies`.
    pub proof fn routes_to_proxies(t: Seq<char>)
        requires
            Proxies::known(t),
        ensures
            Self::route(t) == 227,
    {
        reveal_strlit("proxies");
        assert("proxies"@.len() == 7);
        Self::tags_spelled_7();
    }

    /// A document whose discriminator belongs to `Proxies` decodes through the envelope exactly as
    /// it decodes through `Proxies` itself.
    pub proof fn agrees_with_proxies(d: Doc, at: Seq<char>)
        requires
            tag_of(d) is Some,
            Proxies::known(tag_of(d)->Some_0),
        ensures
            Self::parse(d, at) == Proxies::parse(d, at),
    {
        reveal(<Response as Wire>::parse);
        Self::routes_to_proxies(tag_of(d)->Some_0);
    }

    /// A discriminator of `InputSticker` belongs to the arm `InputSticker`.
    pub proof fn routes_to_input_sticker(t: Seq<char>)
        requires
            InputSticker::known(t),
        ensures
            Self::route(t) == 228,
    {
        reveal_strlit("inputSticker");
        assert("inputSticker"@.len() == 12);
        Self::tags_spelled_12();
    }

    /// A document whose discriminator belongs to `InputSticker` decodes through the envelope
    /// exactly as it decodes through `InputSticker` itself.
    pub proof fn agrees_with_input_sticker(d: Doc, at: Seq<char>)
        requires
            tag_of(d) is Some,
            InputSticker::known(tag_of(d)->Some_0),
        ensures
            Self::parse(d, at) == InputSticker::parse(d, at),
    {
        reveal(<Response as Wire>::parse);
        Self::routes_to_input_sticker(tag_of(d)->Some_0);
    }

    /// A discriminator of `UpdateAuthorizationState` belongs to the arm `UpdateAuthorizationState`.
    pub proof fn routes_to_update_authorization_state(t: Seq<char>)
        requires
            UpdateAuthorizationState::known(t),
        ensures
            Self::route(t) == 229,
    {
        reveal_strlit("updateAuthorizationState");
        assert("updateAuthorizationState"@.len() == 24);
        Self::tags_spelled_24();
    }

    /// A document whose discriminator belongs to `UpdateAuthorizationState` decodes through the
    /// envelope exactly as it decodes through `UpdateAuthorizationState` itself.
    pub proof fn agrees_with_update_authorization_state(d: Doc, at: Seq<char>)
        requires
            tag_of(d) is Some,
            UpdateAuthorizationState::known(tag_of(d)->Some_0),
        ensures
            Self::parse(d, at) == UpdateAuthorizationState::parse(d, at),
    {
        reveal(<Response as Wire>::parse);
        Self::routes_to_update_authorization_state(tag_of(d)->Some_0);
    }

    /// A discriminator of `UpdateNewMessage` belongs to the arm `UpdateNewMessage`.
    pub proof fn routes_to_update_new_message(t: Seq<char>)
        requires
            UpdateNewMessage::known(t),
        ensures
            Self::route(t) == 230,
    {
        reveal_strlit("updateNewMessage");
        assert("updateNewMessage"@.len() == 16);
        Self::tags_spelled_16();
    }

    /// A document whose discriminator belongs to `UpdateNewMessage` decodes through the envelope
    /// exactly as it decodes through `UpdateNewMessage` itself.
    pub proof fn agrees_with_update_new_message(d: Doc, at: Seq<char>)
        requires
            tag_of(d) is Some,
            UpdateNewMessage::known(tag_of(d)->Some_0),
        ensures
            Self::parse(d, at) == UpdateNewMessage::parse(d, at),
    {
        reveal(<Response as Wire>::parse);
        Self::routes_to_update_new_message(tag_of(d)->Some_0);
    }

    /// A discriminator of `UpdateMessageSendAcknowledged` belongs to the arm `UpdateMessageSendAcknowledged`.
    pub proof fn routes_to_update_message_send_acknowledged(t: Seq<char>)
        requires
            UpdateMessageSendAcknowledged::known(t),
        ensures
            Self::route(t) == 231,
    {
        reveal_strlit("updateMessageSendAcknowledged");
        assert("updateMessageSendAcknowledged"@.len() == 29);
        Self::tags_spelled_29();
    }

    /// A document whose discriminator belongs to `UpdateMessageSendAcknowledged` decodes through
    /// the envelope exactly as it decodes through `UpdateMessageSendAcknowledged` itself.
    pub proof fn agrees_with_update_message_send_acknowledged(d: Doc, at: Seq<char>)
        requires
            tag_of(d) is Some,
            UpdateMessageSendAcknowledged::known(tag_of(d)->Some_0),
        ensures
            Self::parse(d, at) == UpdateMessageSendAcknowledged::parse(d, at),
    {
        reveal(<Response as Wire>::parse);
        Self::routes_to_update_message_send_acknowledged(tag_of(d)->Some_0);
    }

    /// A discriminator of `UpdateMessageSendSucceeded` belongs to the arm `UpdateMessageSendSucceeded`.
    pub proof fn routes_to_update_message_send_succeeded(t: Seq<char>)
        requires
            UpdateMessageSendSucceeded::known(t),
        ensures
            Self::route(t) == 232,
    {
        reveal_strlit("updateMessageSendSucceeded");
        assert("updateMessageSendSucceeded"@.len() == 26);
        Self::tags_spelled_26();
    }

    /// A document whose discriminator belongs to `UpdateMessageSendSucceeded` decodes through the
    /// envelope exactly as it decodes through `UpdateMessageSendSucceeded` itself.
    pub proof fn agrees_with_update_message_send_succeeded(d: Doc, at: Seq<char>)
        requires
            tag_of(d) is Some,
            UpdateMessageSendSucceeded::known(tag_of(d)->Some_0),
        ensures
            Self::parse(d, at) == UpdateMessageSendSucceeded::parse(d, at),
    {
        reveal(<Response as Wire>::parse);
        Self::routes_to_update_message_send_succeeded(tag_of(d)->Some_0);
    }

    /// A discriminator of `UpdateMessageSendFailed` belongs to the arm `UpdateMessageSendFailed`.
    pub proof fn routes_to_update_message_send_failed(t: Seq<char>)
        requires
            UpdateMessageSendFailed::known(t),
        ensures
            Self::route(t) == 233,
    {
        reveal_strlit("updateMessageSendFailed");
        assert("updateMessageSendFailed"@.len() == 23);
        Self::tags_spelled_23();
    }

    /// A document whose discriminator belongs to `UpdateMessageSendFailed` decodes through the
    /// envelope exactly as it decodes through `UpdateMessageSendFailed` itself.
    pub proof fn agrees_with_update_message_send_failed(d: Doc, at: Seq<char>)
        requires
            tag_of(d) is Some,
            UpdateMessageSendFailed::known(tag_of(d)->Some_0),
        ensures
            Self::parse(d, at) == UpdateMessageSendFailed::parse(d, at),
    {
        reveal(<Response as Wire>::parse);
        Self::routes_to_update_message_send_failed(tag_of(d)->Some_0);
    }

    /// A discriminator of `UpdateMessageContent` belongs to the arm `UpdateMessageContent`.
    pub proof fn routes_to_update_message_content(t: Seq<char>)
        requires
            UpdateMessageContent::known(t),
        ensures
            Self::route(t) == 234,
    {
        reveal_strlit("updateMessageContent");
        assert("updateMessageContent"@.len() == 20);
        Self::tags_spelled_20();
    }

    /// A document whose discriminator belongs to `UpdateMessageContent` decodes through the
    /// envelope exactly as it decodes through `UpdateMessageContent` itself.
    pub proof fn agrees_with_update_message_content(d: Doc, at: Seq<char>)
        requires
            tag_of(d) is Some,
            UpdateMessageContent::known(tag_of(d)->Some_0),
        ensures
            Self::parse(d, at) == UpdateMessageContent::parse(d, at),
    {
        reveal(<Response as Wire>::parse);
        Self::routes_to_update_message_content(tag_of(d)->Some_0);
    }

    /// A discriminator of `UpdateMessageEdited` belongs to the arm `UpdateMessageEdited`.
    pub proof fn routes_to_update_message_edited(t: Seq<char>)
        requires
            UpdateMessageEdited::known(t),
        ensures
            Self::route(t) == 235,
    {
        reveal_strlit("updateMessageEdited");
        assert("updateMessageEdited"@.len() == 19);
        Self::tags_spelled_19();
    }

    /// A document whose discriminator belongs to `UpdateMessageEdited` decodes through the envelope
    /// exactly as it decodes through `UpdateMessageEdited` itself.
    pub proof fn agrees_with_update_message_edited(d: Doc, at: Seq<char>)
        requires
            tag_of(d) is Some,
            UpdateMessageEdited::known(tag_of(d)->Some_0),
        ensures
            Self::parse(d, at) == UpdateMessageEdited::parse(d, at),
    {
        reveal(<Response as Wire>::parse);
        Self::routes_to_update_message_edited(tag_of(d)->Some_0);
    }

    /// A discriminator of `UpdateMessageViews` belongs to the arm `UpdateMessageViews`.
    pub proof fn routes_to_update_message_views(t: Seq<char>)
        requires
            UpdateMessageViews::known(t),
        ensures
            Self::route(t) == 236,
    {
        reveal_strlit("updateMessageViews");
        assert("updateMessageViews"@.len() == 18);
        Self::tags_spelled_18();
    }

    /// A document whose discriminator belongs to `UpdateMessageViews` decodes through the envelope
    /// exactly as it decodes through `UpdateMessageViews` itself.
    pub proof fn agrees_with_update_message_views(d: Doc, at: Seq<char>)
        requires
            tag_of(d) is Some,
            UpdateMessageViews::known(tag_of(d)->Some_0),
        ensures
            Self::parse(d, at) == UpdateMessageViews::parse(d, at),
    {
        reveal(<Response as Wire>::parse);
        Self::routes_to_update_message_views(tag_of(d)->Some_0);
    }

    /// A discriminator of `UpdateMessageContentOpened` belongs to the arm `UpdateMessageContentOpened`.
    pub proof fn routes_to_update_message_content_opened(t: Seq<char>)
        requires
            UpdateMessageContentOpened::known(t),
        ensures
            Self::route(t) == 237,
    {
        reveal_strlit("updateMessageContentOpened");
        assert("updateMessageContentOpened"@.len() == 26);
        Self::tags_spelled_26();
    }

    /// A document whose discriminator belongs to `UpdateMessageContentOpened` decodes through the
    /// envelope exactly as it decodes through `UpdateMessageContentOpened` itself.
    pub proof fn agrees_with_update_message_content_opened(d: Doc, at: Seq<char>)
        requires
            tag_of(d) is Some,
            UpdateMessageContentOpened::known(tag_of(d)->Some_0),
        ensures
            Self::parse(d, at) == UpdateMessageContentOpened::parse(d, at),
    {
        reveal(<Response as Wire>::parse);
        Self::routes_to_update_message_content_opened(tag_of(d)->Some_0);
    }

    /// A discriminator of `UpdateMessageMentionRead` belongs to the arm `UpdateMessageMentionRead`.
    pub proof fn routes_to_update_message_mention_read(t: Seq<char>)
        requires
            UpdateMessageMentionRead::known(t),
        ensures
            Self::route(t) == 238,
    {
        reveal_strlit("updateMessageMentionRead");
        assert("updateMessageMentionRead"@.len() == 24);
        Self::tags_spelled_24();
    }

    /// A document whose discriminator belongs to `UpdateMessageMentionRead` decodes through the
    /// envelope exactly as it decodes through `UpdateMessageMentionRead` itself.
    pub proof fn agrees_with_update_message_mention_read(d: Doc, at: Seq<char>)
        requires
            tag_of(d) is Some,
            UpdateMessageMentionRead::known(tag_of(d)->Some_0),
        ensures
            Self::parse(d, at) == UpdateMessageMentionRead::parse(d, at),
    {
        reveal(<Response as Wire>::parse);
        Self::routes_to_update_message_mention_read(tag_of(d)->Some_0);
    }

    /// A discriminator of `UpdateMessageLiveLocationViewed` belongs to the arm `UpdateMessageLiveLocationViewed`.
    pub proof fn routes_to_update_message_live_location_viewed(t: Seq<char>)
        requires
            UpdateMessageLiveLocationViewed::known(t),
        ensures
            Self::route(t) == 239,
    {
        reveal_strlit("updateMessageLiveLocationViewed");
        assert("updateMessageLiveLocationViewed"@.len() == 31);
        Self::tags_spelled_31();
    }

    /// A document whose discriminator belongs to `UpdateMessageLiveLocationViewed` decodes through
    /// the envelope exactly as it decodes through `UpdateMessageLiveLocationViewed` itself.
    pub proof fn agrees_with_update_message_live_location_viewed(d: Doc, at: Seq<char>)
        requires
            tag_of(d) is Some,
            UpdateMessageLiveLocationViewed::known(tag_of(d)->Some_0),
        ensures
            Self::parse(d, at) == UpdateMessageLiveLocationViewed::parse(d, at),
    {
        reveal(<Response as Wire>::parse);
        Self::routes_to_update_message_live_location_viewed(tag_of(d)->Some_0);
    }

    /// A discriminator of `UpdateNewChat` belongs to the arm `UpdateNewChat`.
    pub proof fn routes_to_update_new_chat(t: Seq<char>)
        requires
            UpdateNewChat::known(t),
        ensures
            Self::route(t) == 240,
    {
        reveal_strlit("updateNewChat");
        assert("updateNewChat"@.len() == 13);
        Self::tags_spelled_13();
    }

    /// A document whose discriminator belongs to `UpdateNewChat` decodes through the envelope
    /// exactly as it decodes through `UpdateNewChat` itself.
    pub proof fn agrees_with_update_new_chat(d: Doc, at: Seq<char>)
        requires
            tag_of(d) is Some,
            UpdateNewChat::known(tag_of(d)->Some_0),
        ensures
            Self::parse(d, at) == UpdateNewChat::parse(d, at),
    {
        reveal(<Response as Wire>::parse);
        Self::routes_to_update_new_chat(tag_of(d)->Some_0);
    }

    /// A discriminator of `UpdateChatChatList` belongs to the arm `UpdateChatChatList`.
    pub proof fn routes_to_update_chat_chat_list(t: Seq<char>)
        requires
            UpdateChatChatList::known(t),
        ensures
            Self::route(t) == 241,
    {
        reveal_strlit("updateChatChatList");
        assert("updateChatChatList"@.len() == 18);
        Self::tags_spelled_18();
    }

    /// A document whose discriminator belongs to `UpdateChatChatList` decodes through the envelope
    /// exactly as it decodes through `UpdateChatChatList` itself.
    pub proof fn agrees_with_update_chat_chat_list(d: Doc, at: Seq<char>)
        requires
            tag_of(d) is Some,
            UpdateChatChatList::known(tag_of(d)->Some_0),
        ensures
            Self::parse(d, at) == UpdateChatChatList::parse(d, at),
    {
        reveal(<Response as Wire>::parse);
        Self::routes_to_update_chat_chat_list(tag_of(d)->Some_0);
    }

    /// A discriminator of `UpdateChatTitle` belongs to the arm `UpdateChatTitle`.
    pub proof fn routes_to_update_chat_title(t: Seq<char>)
        requires
            UpdateChatTitle::known(t),
        ensures
            Self::route(t) == 242,
    {
        reveal_strlit("updateChatTitle");
        assert("updateChatTitle"@.len() == 15);
        Self::tags_spelled_15();
    }

    /// A document whose discriminator belongs to `UpdateChatTitle` decodes through the envelope
    /// exactly as it decodes through `UpdateChatTitle` itself.
    pub proof fn agrees_with_update_chat_title(d: Doc, at: Seq<char>)
        requires
            tag_of(d) is Some,
            UpdateChatTitle::known(tag_of(d)->Some_0),
        ensures
            Self::parse(d, at) == UpdateChatTitle::parse(d, at),
    {
        reveal(<Response as Wire>::parse);
        Self::routes_to_update_chat_title(tag_of(d)->Some_0);
    }

    /// A discriminator of `UpdateChatPhoto` belongs to the arm `UpdateChatPhoto`.
    pub proof fn routes_to_update_chat_photo(t: Seq<char>)
        requires
            UpdateChatPhoto::known(t),
        ensures
            Self::route(t) == 243,
    {
        reveal_strlit("updateChatPhoto");
        assert("updateChatPhoto"@.len() == 15);
        Self::tags_spelled_15();
    }

    /// A document whose discriminator belongs to `UpdateChatPhoto` decodes through the envelope
    /// exactly as it decodes through `UpdateChatPhoto` itself.
    pub proof fn agrees_with_update_chat_photo(d: Doc, at: Seq<char>)
        requires
            tag_of(d) is Some,
            UpdateChatPhoto::known(tag_of(d)->Some_0),
        ensures
            Self::parse(d, at) == UpdateChatPhoto::parse(d, at),
    {
        reveal(<Response as Wire>::parse);
        Self::routes_to_update_chat_photo(tag_of(d)->Some_0);
    }

    /// A discriminator of `UpdateChatPermissions` belongs to the arm `UpdateChatPermissions`.
    pub proof fn routes_to_update_chat_permissions(t: Seq<char>)
        requires
            UpdateChatPermissions::known(t),
        ensures
            Self::route(t) == 244,
    {
        reveal_strlit("updateChatPermissions");
        assert("updateChatPermissions"@.len() == 21);
        Self::tags_spelled_21();
    }

    /// A document whose discriminator belongs to `UpdateChatPermissions` decodes through the
    /// envelope exactly as it decodes through `UpdateChatPermissions` itself.
    pub proof fn agrees_with_update_chat_permissions(d: Doc, at: Seq<char>)
        requires
            tag_of(d) is Some,
            UpdateChatPermissions::known(tag_of(d)->Some_0),
        ensures
            Self::parse(d, at) == UpdateChatPermissions::parse(d, at),
    {
        reveal(<Response as Wire>::parse);
        Self::routes_to_update_chat_permissions(tag_of(d)->Some_0);
    }

    /// A discriminator of `UpdateChatLastMessage` belongs to the arm `UpdateChatLastMessage`.
    pub proof fn routes_to_update_chat_last_message(t: Seq<char>)
        requires
            UpdateChatLastMessage::known(t),
        ensures
            Self::route(t) == 245,
    {
        reveal_strlit("updateChatLastMessage");
        assert("updateChatLastMessage"@.len() == 21);
        Self::tags_spelled_21();
    }

    /// A document whose discriminator belongs to `UpdateChatLastMessage` decodes through the
    /// envelope exactly as it decodes through `UpdateChatLastMessage` itself.
    pub proof fn agrees_with_update_chat_last_message(d: Doc, at: Seq<char>)
        requires
            tag_of(d) is Some,
            UpdateChatLastMessage::known(tag_of(d)->Some_0),
        ensures
            Self::parse(d, at) == UpdateChatLastMessage::parse(d, at),
    {
        reveal(<Response as Wire>::parse);
        Self::routes_to_update_chat_last_message(tag_of(d)->Some_0);
    }

    /// A discriminator of `UpdateChatOrder` belongs to the arm `UpdateChatOrder`.
    pub proof fn routes_to_update_chat_order(t: Seq<char>)
        requires
            UpdateChatOrder::known(t),
        ensures
            Self::route(t) == 246,
    {
        reveal_strlit("updateChatOrder");
        assert("updateChatOrder"@.len() == 15);
        Self::tags_spelled_15();
    }

    /// A document whose discriminator belongs to `UpdateChatOrder` decodes through the envelope
    /// exactly as it decodes through `UpdateChatOrder` itself.
    pub proof fn agrees_with_update_chat_order(d: Doc, at: Seq<char>)
        requires
            tag_of(d) is Some,
            UpdateChatOrder::known(tag_of(d)->Some_0),
        ensures
            Self::parse(d, at) == UpdateChatOrder::parse(d, at),
    {
        reveal(<Response as Wire>::parse);
        Self::routes_to_update_chat_order(tag_of(d)->Some_0);
    }

    /// A discriminator of `UpdateChatIsPinned` belongs to the arm `UpdateChatIsPinned`.
    pub proof fn routes_to_update_chat_is_pinned(t: Seq<char>)
        requires
            UpdateChatIsPinned::known(t),
        ensures
            Self::route(t) == 247,
    {
        reveal_strlit("updateChatIsPinned");
        assert("updateChatIsPinned"@.len() == 18);
        Self::tags_spelled_18();
    }

    /// A document whose discriminator belongs to `UpdateChatIsPinned` decodes through the envelope
    /// exactly as it decodes through `UpdateChatIsPinned` itself.
    pub proof fn agrees_with_update_chat_is_pinned(d: Doc, at: Seq<char>)
        requires
            tag_of(d) is Some,
            UpdateChatIsPinned::known(tag_of(d)->Some_0),
        ensures
            Self::parse(d, at) == UpdateChatIsPinned::parse(d, at),
    {
        reveal(<Response as Wire>::parse);
        Self::routes_to_update_chat_is_pinned(tag_of(d)->Some_0);
    }

    /// A discriminator of `UpdateChatIsMarkedAsUnread` belongs to the arm `UpdateChatIsMarkedAsUnread`.
    pub proof fn routes_to_update_chat_is_marked_as_unread(t: Seq<char>)
        requires
            UpdateChatIsMarkedAsUnread::known(t),
        ensures
            Self::route(t) == 248,
    {
        reveal_strlit("updateChatIsMarkedAsUnread");
        assert("updateChatIsMarkedAsUnread"@.len() == 26);
        Self::tags_spelled_26();
    }

    /// A document whose discriminator belongs to `UpdateChatIsMarkedAsUnread` decodes through the
    /// envelope exactly as it decodes through `UpdateChatIsMarkedAsUnread` itself.
    pub proof fn agrees_with_update_chat_is_marked_as_unread(d: Doc, at: Seq<char>)
        requires
            tag_of(d) is Some,
            UpdateChatIsMarkedAsUnread::known(tag_of(d)->Some_0),
        ensures
            Self::parse(d, at) == UpdateChatIsMarkedAsUnread::parse(d, at),
    {
        reveal(<Response as Wire>::parse);
        Self::routes_to_update_chat_is_marked_as_unread(tag_of(d)->Some_0);
    }

    /// A discriminator of `UpdateChatIsSponsored` belongs to the arm `UpdateChatIsSponsored`.
    pub proof fn routes_to_update_chat_is_sponsored(t: Seq<char>)
        requires
            UpdateChatIsSponsored::known(t),
        ensures
            Self::route(t) == 249,
    {
        reveal_strlit("updateChatIsSponsored");
        assert("updateChatIsSponsored"@.len() == 21);
        Self::tags_spelled_21();
    }

    /// A document whose discriminator belongs to `UpdateChatIsSponsored` decodes through the
    /// envelope exactly as it decodes through `UpdateChatIsSponsored` itself.
    pub proof fn agrees_with_update_chat_is_sponsored(d: Doc, at: Seq<char>)
        requires
            tag_of(d) is Some,
            UpdateChatIsSponsored::known(tag_of(d)->Some_0),
        ensures
            Self::parse(d, at) == UpdateChatIsSponsored::parse(d, at),
    {
        reveal(<Response as Wire>::parse);
        Self::routes_to_update_chat_is_sponsored(tag_of(d)->Some_0);
    }

    /// A discriminator of `UpdateChatHasScheduledMessages` belongs to the arm `UpdateChatHasScheduledMessages`.
    pub proof fn routes_to_update_chat_has_scheduled_messages(t: Seq<char>)
        requires
            UpdateChatHasScheduledMessages::known(t),
        ensures
            Self::route(t) == 250,
    {
        reveal_strlit("updateChatHasScheduledMessages");
        assert("updateChatHasScheduledMessages"@.len() == 30);
        Self::tags_spelled_30();
    }

    /// A document whose discriminator belongs to `UpdateChatHasScheduledMessages` decodes through
    /// the envelope exactly as it decodes through `UpdateChatHasScheduledMessages` itself.
    pub proof fn agrees_with_update_chat_has_scheduled_messages(d: Doc, at: Seq<char>)
        requires
            tag_of(d) is Some,
            UpdateChatHasScheduledMessages::known(tag_of(d)->Some_0),
        ensures
            Self::parse(d, at) == UpdateChatHasScheduledMessages::parse(d, at),
    {
        reveal(<Response as Wire>::parse);
        Self::routes_to_update_chat_has_scheduled_messages(tag_of(d)->Some_0);
    }

    /// A discriminator of `UpdateChatDefaultDisableNotification` belongs to the arm `UpdateChatDefaultDisableNotification`.
    pub proof fn routes_to_update_chat_default_disable_notification(t: Seq<char>)
        requires
            UpdateChatDefaultDisableNotification::known(t),
        ensures
            Self::route(t) == 251,
    {
        reveal_strlit("updateChatDefaultDisableNotification");
        assert("updateChatDefaultDisableNotification"@.len() == 36);
        Self::tags_spelled_36();
    }

    /// A document whose discriminator belongs to `UpdateChatDefaultDisableNotification` decodes
    /// through the envelope exactly as it decodes through `UpdateChatDefaultDisableNotification`
    /// itself.
    pub proof fn agrees_with_update_chat_default_disable_notification(d: Doc, at: Seq<char>)
        requires
            tag_of(d) is Some,
            UpdateChatDefaultDisableNotification::known(tag_of(d)->Some_0),
        ensures
            Self::parse(d, at) == UpdateChatDefaultDisableNotification::parse(d, at),
    {
        reveal(<Response as Wire>::parse);
        Self::routes_to_update_chat_default_disable_notification(tag_of(d)->Some_0);
    }

    /// A discriminator of `UpdateChatReadInbox` belongs to the arm `UpdateChatReadInbox`.
    pub proof fn routes_to_update_chat_read_inbox(t: Seq<char>)
        requires
            UpdateChatReadInbox::known(t),
        ensures
            Self::route(t) == 252,
    {
        reveal_strlit("updateChatReadInbox");
        assert("updateChatReadInbox"@.len() == 19);
        Self::tags_spelled_19();
    }

    /// A document whose discriminator belongs to `UpdateChatReadInbox` decodes through the envelope
    /// exactly as it decodes through `UpdateChatReadInbox` itself.
    pub proof fn agrees_with_update_chat_read_inbox(d: Doc, at: Seq<char>)
        requires
            tag_of(d) is Some,
            UpdateChatReadInbox::known(tag_of(d)->Some_0),
        ensures
            Self::parse(d, at) == UpdateChatReadInbox::parse(d, at),
    {
        reveal(<Response as Wire>::parse);
        Self::routes_to_update_chat_read_inbox(tag_of(d)->Some_0);
    }

    /// A discriminator of `UpdateChatReadOutbox` belongs to the arm `UpdateChatReadOutbox`.
    pub proof fn routes_to_update_chat_read_outbox(t: Seq<char>)
        requires
            UpdateChatReadOutbox::known(t),
        ensures
            Self::route(t) == 253,
    {
        reveal_strlit("updateChatReadOutbox");
        assert("updateChatReadOutbox"@.len() == 20);
        Self::tags_spelled_20();
    }

    /// A document whose discriminator belongs to `UpdateChatReadOutbox` decodes through the
    /// envelope exactly as it decodes through `UpdateChatReadOutbox` itself.
    pub proof fn agrees_with_update_chat_read_outbox(d: Doc, at: Seq<char>)
        requires
            tag_of(d) is Some,
            UpdateChatReadOutbox::known(tag_of(d)->Some_0),
        ensures
            Self::parse(d, at) == UpdateChatReadOutbox::parse(d, at),
    {
        reveal(<Response as Wire>::parse);
        Self::routes_to_update_chat_read_outbox(tag_of(d)->Some_0);
    }

    /// A discriminator of `UpdateChatUnreadMentionCount` belongs to the arm `UpdateChatUnreadMentionCount`.
    pub proof fn routes_to_update_chat_unread_mention_count(t: Seq<char>)
        requires
            UpdateChatUnreadMentionCount::known(t),
        ensures
            Self::route(t) == 254,
    {
        reveal_strlit("updateChatUnreadMentionCount");
        assert("updateChatUnreadMentionCount"@.len() == 28);
        Self::tags_spelled_28();
    }

    /// A document whose discriminator belongs to `UpdateChatUnreadMentionCount` decodes through the
    /// envelope exactly as it decodes through `UpdateChatUnreadMentionCount` itself.
    pub proof fn agrees_with_update_chat_unread_mention_count(d: Doc, at: Seq<char>)
        requires
            tag_of(d) is Some,
            UpdateChatUnreadMentionCount::known(tag_of(d)->Some_0),
        ensures
            Self::parse(d, at) == UpdateChatUnreadMentionCount::parse(d, at),
    {
        reveal(<Response as Wire>::parse);
        Self::routes_to_update_chat_unread_mention_count(tag_of(d)->Some_0);
    }

    /// A discriminator of `UpdateChatNotificationSettings` belongs to the arm `UpdateChatNotificationSettings`.
    pub proof fn routes_to_update_chat_notification_settings(t: Seq<char>)
        requires
            UpdateChatNotificationSettings::known(t),
        ensures
            Self::route(t) == 255,
    {
        reveal_strlit("updateChatNotificationSettings");
        assert("updateChatNotificationSettings"@.len() == 30);
        Self::tags_spelled_30();
    }

    /// A document whose discriminator belongs to `UpdateChatNotificationSettings` decodes through
    /// the envelope exactly as it decodes through `UpdateChatNotificationSettings` itself.
    pub proof fn agrees_with_update_chat_notification_settings(d: Doc, at: Seq<char>)
        requires
            tag_of(d) is Some,
            UpdateChatNotificationSettings::known(tag_of(d)->Some_0),
        ensures
            Self::parse(d, at) == UpdateChatNotificationSettings::parse(d, at),
    {
        reveal(<Response as Wire>::parse);
        Self::routes_to_update_chat_notification_settings(tag_of(d)->Some_0);
    }

    /// A discriminator of `UpdateScopeNotificationSettings` belongs to the arm `UpdateScopeNotificationSettings`.
    pub proof fn routes_to_update_scope_notification_settings(t: Seq<char>)
        requires
            UpdateScopeNotificationSettings::known(t),
        ensures
            Self::route(t) == 256,
    {
        reveal_strlit("updateScopeNotificationSettings");
        assert("updateScopeNotificationSettings"@.len() == 31);
        Self::tags_spelled_31();
    }

    /// A document whose discriminator belongs to `UpdateScopeNotificationSettings` decodes through
    /// the envelope exactly as it decodes through `UpdateScopeNotificationSettings` itself.
    pub proof fn agrees_with_update_scope_notification_settings(d: Doc, at: Seq<char>)
        requires
            tag_of(d) is Some,
            UpdateScopeNotificationSettings::known(tag_of(d)->Some_0),
        ensures
            Self::parse(d, at) == UpdateScopeNotificationSettings::parse(d, at),
    {
        reveal(<Response as Wire>::parse);
        Self::routes_to_update_scope_notification_settings(tag_of(d)->Some_0);
    }

    /// A discriminator of `UpdateChatActionBar` belongs to the arm `UpdateChatActionBar`.
    pub proof fn routes_to_update_chat_action_bar(t: Seq<char>)
        requires
            UpdateChatActionBar::known(t),
        ensures
            Self::route(t) == 257,
    {
        reveal_strlit("updateChatActionBar");
        assert("updateChatActionBar"@.len() == 19);
        Self::tags_spelled_19();
    }

    /// A document whose discriminator belongs to `UpdateChatActionBar` decodes through the envelope
    /// exactly as it decodes through `UpdateChatActionBar` itself.
    pub proof fn agrees_with_update_chat_action_bar(d: Doc, at: Seq<char>)
        requires
            tag_of(d) is Some,
            UpdateChatActionBar::known(tag_of(d)->Some_0),
        ensures
            Self::parse(d, at) == UpdateChatActionBar::parse(d, at),
    {
        reveal(<Response as Wire>::parse);
        Self::routes_to_update_chat_action_bar(tag_of(d)->Some_0);
    }

    /// A discriminator of `UpdateChatPinnedMessage` belongs to the arm `UpdateChatPinnedMessage`.
    pub proof fn routes_to_update_chat_pinned_message(t: Seq<char>)
        requires
            UpdateChatPinnedMessage::known(t),
        ensures
            Self::route(t) == 258,
    {
        reveal_strlit("updateChatPinnedMessage");
        assert("updateChatPinnedMessage"@.len() == 23);
        Self::tags_spelled_23();
    }

    /// A document whose discriminator belongs to `UpdateChatPinnedMessage` decodes through the
    /// envelope exactly as it decodes through `UpdateChatPinnedMessage` itself.
    pub proof fn agrees_with_update_chat_pinned_message(d: Doc, at: Seq<char>)
        requires
            tag_of(d) is Some,
            UpdateChatPinnedMessage::known(tag_of(d)->Some_0),
        ensures
            Self::parse(d, at) == UpdateChatPinnedMessage::parse(d, at),
    {
        reveal(<Response as Wire>::parse);
        Self::routes_to_update_chat_pinned_message(tag_of(d)->Some_0);
    }

    /// A discriminator of `UpdateChatReplyMarkup` belongs to the arm `UpdateChatReplyMarkup`.
    pub proof fn routes_to_update_chat_reply_markup(t: Seq<char>)
        requires
            UpdateChatReplyMarkup::known(t),
        ensures
            Self::route(t) == 259,
    {
        reveal_strlit("updateChatReplyMarkup");
        assert("updateChatReplyMarkup"@.len() == 21);
        Self::tags_spelled_21();
    }

    /// A document whose discriminator belongs to `UpdateChatReplyMarkup` decodes through the
    /// envelope exactly as it decodes through `UpdateChatReplyMarkup` itself.
    pub proof fn agrees_with_update_chat_reply_markup(d: Doc, at: Seq<char>)
        requires
            tag_of(d) is Some,
            UpdateChatReplyMarkup::known(tag_of(d)->Some_0),
        ensures
            Self::parse(d, at) == UpdateChatReplyMarkup::parse(d, at),
    {
        reveal(<Response as Wire>::parse);
        Self::routes_to_update_chat_reply_markup(tag_of(d)->Some_0);
    }

    /// A discriminator of `UpdateChatDraftMessage` belongs to the arm `UpdateChatDraftMessage`.
    pub proof fn routes_to_update_chat_draft_message(t: Seq<char>)
        requires
            UpdateChatDraftMessage::known(t),
        ensures
            Self::route(t) == 260,
    {
        reveal_strlit("updateChatDraftMessage");
        assert("updateChatDraftMessage"@.len() == 22);
        Self::tags_spelled_22();
    }

    /// A document whose discriminator belongs to `UpdateChatDraftMessage` decodes through the
    /// envelope exactly as it decodes through `UpdateChatDraftMessage` itself.
    pub proof fn agrees_with_update_chat_draft_message(d: Doc, at: Seq<char>)
        requires
            tag_of(d) is Some,
            UpdateChatDraftMessage::known(tag_of(d)->Some_0),
        ensures
            Self::parse(d, at) == UpdateChatDraftMessage::parse(d, at),
    {
        reveal(<Response as Wire>::parse);
        Self::routes_to_update_chat_draft_message(tag_of(d)->Some_0);
    }

    /// A discriminator of `UpdateChatOnlineMemberCount` belongs to the arm `UpdateChatOnlineMemberCount`.
    pub proof fn routes_to_update_chat_online_member_count(t: Seq<char>)
        requires
            UpdateChatOnlineMemberCount::known(t),
        ensures
            Self::route(t) == 261,
    {
        reveal_strlit("updateChatOnlineMemberCount");
        assert("updateChatOnlineMemberCount"@.len() == 27);
        Self::tags_spelled_27();
    }

    /// A document whose discriminator belongs to `UpdateChatOnlineMemberCount` decodes through the
    /// envelope exactly as it decodes through `UpdateChatOnlineMemberCount` itself.
    pub proof fn agrees_with_update_chat_online_member_count(d: Doc, at: Seq<char>)
        requires
            tag_of(d) is Some,
            UpdateChatOnlineMemberCount::known(tag_of(d)->Some_0),
        ensures
            Self::parse(d, at) == UpdateChatOnlineMemberCount::parse(d, at),
    {
        reveal(<Response as Wire>::parse);
        Self::routes_to_update_chat_online_member_count(tag_of(d)->Some_0);
    }

    /// A discriminator of `UpdateNotification` belongs to the arm `UpdateNotification`.
    pub proof fn routes_to_update_notification(t: Seq<char>)
        requires
            UpdateNotification::known(t),
        ensures
            Self::route(t) == 262,
    {
        reveal_strlit("updateNotification");
        assert("updateNotification"@.len() == 18);
        Self::tags_spelled_18();
    }

    /// A document whose discriminator belongs to `UpdateNotification` decodes through the envelope
    /// exactly as it decodes through `UpdateNotification` itself.
    pub proof fn agrees_with_update_notification(d: Doc, at: Seq<char>)
        requires
            tag_of(d) is Some,
            UpdateNotification::known(tag_of(d)->Some_0),
        ensures
            Self::parse(d, at) == UpdateNotification::parse(d, at),
    {
        reveal(<Response as Wire>::parse);
        Self::routes_to_update_notification(tag_of(d)->Some_0);
    }

    /// A discriminator of `UpdateNotificationGroup` belongs to the arm `UpdateNotificationGroup`.
    pub proof fn routes_to_update_notification_group(t: Seq<char>)
        requires
            UpdateNotificationGroup::known(t),
        ensures
            Self::route(t) == 263,
    {
        reveal_strlit("updateNotificationGroup");
        assert("updateNotificationGroup"@.len() == 23);
        Self::tags_spelled_23();
    }

    /// A document whose discriminator belongs to `UpdateNotificationGroup` decodes through the
    /// envelope exactly as it decodes through `UpdateNotificationGroup` itself.
    pub proof fn agrees_with_update_notification_group(d: Doc, at: Seq<char>)
        requires
            tag_of(d) is Some,
            UpdateNotificationGroup::known(tag_of(d)->Some_0),
        ensures
            Self::parse(d, at) == UpdateNotificationGroup::parse(d, at),
    {
        reveal(<Response as Wire>::parse);
        Self::routes_to_update_notification_group(tag_of(d)->Some_0);
    }

    /// A discriminator of `UpdateActiveNotifications` belongs to the arm `UpdateActiveNotifications`.
    pub proof fn routes_to_update_active_notifications(t: Seq<char>)
        requires
            UpdateActiveNotifications::known(t),
        ensures
            Self::route(t) == 264,
    {
        reveal_strlit("updateActiveNotifications");
        assert("updateActiveNotifications"@.len() == 25);
        Self::tags_spelled_25();
    }

    /// A document whose discriminator belongs to `UpdateActiveNotifications` decodes through the
    /// envelope exactly as it decodes through `UpdateActiveNotifications` itself.
    pub proof fn agrees_with_update_active_notifications(d: Doc, at: Seq<char>)
        requires
            tag_of(d) is Some,
            UpdateActiveNotifications::known(tag_of(d)->Some_0),
        ensures
            Self::parse(d, at) == UpdateActiveNotifications::parse(d, at),
    {
        reveal(<Response as Wire>::parse);
        Self::routes_to_update_active_notifications(tag_of(d)->Some_0);
    }

    /// A discriminator of `UpdateHavePendingNotifications` belongs to the arm `UpdateHavePendingNotifications`.
    pub proof fn routes_to_update_have_pending_notifications(t: Seq<char>)
        requires
            UpdateHavePendingNotifications::known(t),
        ensures
            Self::route(t) == 265,
    {
        reveal_strlit("updateHavePendingNotifications");
        assert("updateHavePendingNotifications"@.len() == 30);
        Self::tags_spelled_30();
    }

    /// A document whose discriminator belongs to `UpdateHavePendingNotifications` decodes through
    /// the envelope exactly as it decodes through `UpdateHavePendingNotifications` itself.
    pub proof fn agrees_with_update_have_pending_notifications(d: Doc, at: Seq<char>)
        requires
            tag_of(d) is Some,
            UpdateHavePendingNotifications::known(tag_of(d)->Some_0),
        ensures
            Self::parse(d, at) == UpdateHavePendingNotifications::parse(d, at),
    {
        reveal(<Response as Wire>::parse);
        Self::routes_to_update_have_pending_notifications(tag_of(d)->Some_0);
    }

    /// A discriminator of `UpdateDeleteMessages` belongs to the arm `UpdateDeleteMessages`.
    pub proof fn routes_to_update_delete_messages(t: Seq<char>)
        requires
            UpdateDeleteMessages::known(t),
        ensures
            Self::route(t) == 266,
    {
        reveal_strlit("updateDeleteMessages");
        assert("updateDeleteMessages"@.len() == 20);
        Self::tags_spelled_20();
    }

    /// A document whose discriminator belongs to `UpdateDeleteMessages` decodes through the
    /// envelope exactly as it decodes through `UpdateDeleteMessages` itself.
    pub proof fn agrees_with_update_delete_messages(d: Doc, at: Seq<char>)
        requires
            tag_of(d) is Some,
            UpdateDeleteMessages::known(tag_of(d)->Some_0),
        ensures
            Self::parse(d, at) == UpdateDeleteMessages::parse(d, at),
    {
        reveal(<Response as Wire>::parse);
        Self::routes_to_update_delete_messages(tag_of(d)->Some_0);
    }

    /// A discriminator of `UpdateUserChatAction` belongs to the arm `UpdateUserChatAction`.
    pub proof fn routes_to_update_user_chat_action(t: Seq<char>)
        requires
            UpdateUserChatAction::known(t),
        ensures
            Self::route(t) == 267,
    {
        reveal_strlit("updateUserChatAction");
        assert("updateUserChatAction"@.len() == 20);
        Self::tags_spelled_20();
    }

    /// A document whose discriminator belongs to `UpdateUserChatAction` decodes through the
    /// envelope exactly as it decodes through `UpdateUserChatAction` itself.
    pub proof fn agrees_with_update_user_chat_action(d: Doc, at: Seq<char>)
        requires
            tag_of(d) is Some,
            UpdateUserChatAction::known(tag_of(d)->Some_0),
        ensures
            Self::parse(d, at) == UpdateUserChatAction::parse(d, at),
    {
        reveal(<Response as Wire>::parse);
        Self::routes_to_update_user_chat_action(tag_of(d)->Some_0);
    }

    /// A discriminator of `UpdateUserStatus` belongs to the arm `UpdateUserStatus`.
    pub proof fn routes_to_update_user_status(t: Seq<char>)
        requires
            UpdateUserStatus::known(t),
        ensures
            Self::route(t) == 268,
    {
        reveal_strlit("updateUserStatus");
        assert("updateUserStatus"@.len() == 16);
        Self::tags_spelled_16();
    }

    /// A document whose discriminator belongs to `UpdateUserStatus` decodes through the envelope
    /// exactly as it decodes through `UpdateUserStatus` itself.
    pub proof fn agrees_with_update_user_status(d: Doc, at: Seq<char>)
        requires
            tag_of(d) is Some,
            UpdateUserStatus::known(tag_of(d)->Some_0),
        ensures
            Self::parse(d, at) == UpdateUserStatus::parse(d, at),
    {
        reveal(<Response as Wire>::parse);
        Self::routes_to_update_user_status(tag_of(d)->Some_0);
    }

    /// A discriminator of `UpdateUser` belongs to the arm `UpdateUser`.
    pub proof fn routes_to_update_user(t: Seq<char>)
        requires
            UpdateUser::known(t),
        ensures
            Self::route(t) == 269,
    {
        reveal_strlit("updateUser");
        assert("updateUser"@.len() == 10);
        Self::tags_spelled_10();
    }

    /// A document whose discriminator belongs to `UpdateUser` decodes through the envelope exactly
    /// as it decodes through `UpdateUser` itself.
    pub proof fn agrees_with_update_user(d: Doc, at: Seq<char>)
        requires
            tag_of(d) is Some,
            UpdateUser::known(tag_of(d)->Some_0),
        ensures
            Self::parse(d, at) == UpdateUser::parse(d, at),
    {
        reveal(<Response as Wire>::parse);
        Self::routes_to_update_user(tag_of(d)->Some_0);
    }

    /// A discriminator of `UpdateBasicGroup` belongs to the arm `UpdateBasicGroup`.
    pub proof fn routes_to_update_basic_group(t: Seq<char>)
        requires
            UpdateBasicGroup::known(t),
        ensures
            Self::route(t) == 270,
    {
        reveal_strlit("updateBasicGroup");
        assert("updateBasicGroup"@.len() == 16);
        Self::tags_spelled_16();
    }

    /// A document whose discriminator belongs to `UpdateBasicGroup` decodes through the envelope
    /// exactly as it decodes through `UpdateBasicGroup` itself.
    pub proof fn agrees_with_update_basic_group(d: Doc, at: Seq<char>)
        requires
            tag_of(d) is Some,
            UpdateBasicGroup::known(tag_of(d)->Some_0),
        ensures
            Self::parse(d, at) == UpdateBasicGroup::parse(d, at),
    {
        reveal(<Response as Wire>::parse);
        Self::routes_to_update_basic_group(tag_of(d)->Some_0);
    }

    /// A discriminator of `UpdateSupergroup` belongs to the arm `UpdateSupergroup`.
    pub proof fn routes_to_update_supergroup(t: Seq<char>)
        requires
            UpdateSupergroup::known(t),
        ensures
            Self::route(t) == 271,
    {
        reveal_strlit("updateSupergroup");
        assert("updateSupergroup"@.len() == 16);
        Self::tags_spelled_16();
    }

    /// A document whose discriminator belongs to `UpdateSupergroup` decodes through the envelope
    /// exactly as it decodes through `UpdateSupergroup` itself.
    pub proof fn agrees_with_update_supergroup(d: Doc, at: Seq<char>)
        requires
            tag_of(d) is Some,
            UpdateSupergroup::known(tag_of(d)->Some_0),
        ensures
            Self::parse(d, at) == UpdateSupergroup::parse(d, at),
    {
        reveal(<Response as Wire>::parse);
        Self::routes_to_update_supergroup(tag_of(d)->Some_0);
    }

    /// A discriminator of `UpdateSecretChat` belongs to the arm `UpdateSecretChat`.
    pub proof fn routes_to_update_secret_chat(t: Seq<char>)
        requires
            UpdateSecretChat::known(t),
        ensures
            Self::route(t) == 272,
    {
        reveal_strlit("updateSecretChat");
        assert("updateSecretChat"@.len() == 16);
        Self::tags_spelled_16();
    }

    /// A document whose discriminator belongs to `UpdateSecretChat` decodes through the envelope
    /// exactly as it decodes through `UpdateSecretChat` itself.
    pub proof fn agrees_with_update_secret_chat(d: Doc, at: Seq<char>)
        requires
            tag_of(d) is Some,
            UpdateSecretChat::known(tag_of(d)->Some_0),
        ensures
            Self::parse(d, at) == UpdateSecretChat::parse(d, at),
    {
        reveal(<Response as Wire>::parse);
        Self::routes_to_update_secret_chat(tag_of(d)->Some_0);
    }

    /// A discriminator of `UpdateUserFullInfo` belongs to the arm `UpdateUserFullInfo`.
    pub proof fn routes_to_update_user_full_info(t: Seq<char>)
        requires
            UpdateUserFullInfo::known(t),
        ensures
            Self::route(t) == 273,
    {
        reveal_strlit("updateUserFullInfo");
        assert("updateUserFullInfo"@.len() == 18);
        Self::tags_spelled_18();
    }

    /// A document whose discriminator belongs to `UpdateUserFullInfo` decodes through the envelope
    /// exactly as it decodes through `UpdateUserFullInfo` itself.
    pub proof fn agrees_with_update_user_full_info(d: Doc, at: Seq<char>)
        requires
            tag_of(d) is Some,
            UpdateUserFullInfo::known(tag_of(d)->Some_0),
        ensures
            Self::parse(d, at) == UpdateUserFullInfo::parse(d, at),
    {
        reveal(<Response as Wire>::parse);
        Self::routes_to_update_user_full_info(tag_of(d)->Some_0);
    }

    /// A discriminator of `UpdateBasicGroupFullInfo` belongs to the arm `UpdateBasicGroupFullInfo`.
    pub proof fn routes_to_update_basic_group_full_info(t: Seq<char>)
        requires
            UpdateBasicGroupFullInfo::known(t),
        ensures
            Self::route(t) == 274,
    {
        reveal_strlit("updateBasicGroupFullInfo");
        assert("updateBasicGroupFullInfo"@.len() == 24);
        Self::tags_spelled_24();
    }

    /// A document whose discriminator belongs to `UpdateBasicGroupFullInfo` decodes through the
    /// envelope exactly as it decodes through `UpdateBasicGroupFullInfo` itself.
    pub proof fn agrees_with_update_basic_group_full_info(d: Doc, at: Seq<char>)
        requires
            tag_of(d) is Some,
            UpdateBasicGroupFullInfo::known(tag_of(d)->Some_0),
        ensures
            Self::parse(d, at) == UpdateBasicGroupFullInfo::parse(d, at),
    {
        reveal(<Response as Wire>::parse);
        Self::routes_to_update_basic_group_full_info(tag_of(d)->Some_0);
    }

    /// A discriminator of `UpdateSupergroupFullInfo` belongs to the arm `UpdateSupergroupFullInfo`.
    pub proof fn routes_to_update_supergroup_full_info(t: Seq<char>)
        requires
            UpdateSupergroupFullInfo::known(t),
        ensures
            Self::route(t) == 275,
    {
        reveal_strlit("updateSupergroupFullInfo");
        assert("updateSupergroupFullInfo"@.len() == 24);
        Self::tags_spelled_24();
    }

    /// A document whose discriminator belongs to `UpdateSupergroupFullInfo` decodes through the
    /// envelope exactly as it decodes through `UpdateSupergroupFullInfo` itself.
    pub proof fn agrees_with_update_supergroup_full_info(d: Doc, at: Seq<char>)
        requires
            tag_of(d) is Some,
            UpdateSupergroupFullInfo::known(tag_of(d)->Some_0),
        ensures
            Self::parse(d, at) == UpdateSupergroupFullInfo::parse(d, at),
    {
        reveal(<Response as Wire>::parse);
        Self::routes_to_update_supergroup_full_info(tag_of(d)->Some_0);
    }

    /// A discriminator of `UpdateServiceNotification` belongs to the arm `UpdateServiceNotification`.
    pub proof fn routes_to_update_service_notification(t: Seq<char>)
        requires
            UpdateServiceNotification::known(t),
        ensures
            Self::route(t) == 276,
    {
        reveal_strlit("updateServiceNotification");
        assert("updateServiceNotification"@.len() == 25);
        Self::tags_spelled_25();
    }

    /// A document whose discriminator belongs to `UpdateServiceNotification` decodes through the
    /// envelope exactly as it decodes through `UpdateServiceNotification` itself.
    pub proof fn agrees_with_update_service_notification(d: Doc, at: Seq<char>)
        requires
            tag_of(d) is Some,
            UpdateServiceNotification::known(tag_of(d)->Some_0),
        ensures
            Self::parse(d, at) == UpdateServiceNotification::parse(d, at),
    {
        reveal(<Response as Wire>::parse);
        Self::routes_to_update_service_notification(tag_of(d)->Some_0);
    }

    /// A discriminator of `UpdateFile` belongs to the arm `UpdateFile`.
    pub proof fn routes_to_update_file(t: Seq<char>)
        requires
            UpdateFile::known(t),
        ensures
            Self::route(t) == 277,
    {
        reveal_strlit("updateFile");
        assert("updateFile"@.len() == 10);
        Self::tags_spelled_10();
    }

    /// A document whose discriminator belongs to `UpdateFile` decodes through the envelope exactly
    /// as it decodes through `UpdateFile` itself.
    pub proof fn agrees_with_update_file(d: Doc, at: Seq<char>)
        requires
            tag_of(d) is Some,
            UpdateFile::known(tag_of(d)->Some_0),
        ensures
            Self::parse(d, at) == UpdateFile::parse(d, at),
    {
        reveal(<Response as Wire>::parse);
        Self::routes_to_update_file(tag_of(d)->Some_0);
    }

    /// A discriminator of `UpdateFileGenerationStart` belongs to the arm `UpdateFileGenerationStart`.
    pub proof fn routes_to_update_file_generation_start(t: Seq<char>)
        requires
            UpdateFileGenerationStart::known(t),
        ensures
            Self::route(t) == 278,
    {
        reveal_strlit("updateFileGenerationStart");
        assert("updateFileGenerationStart"@.len() == 25);
        Self::tags_spelled_25();
    }

    /// A document whose discriminator belongs to `UpdateFileGenerationStart` decodes through the
    /// envelope exactly as it decodes through `UpdateFileGenerationStart` itself.
    pub proof fn agrees_with_update_file_generation_start(d: Doc, at: Seq<char>)
        requires
            tag_of(d) is Some,
            UpdateFileGenerationStart::known(tag_of(d)->Some_0),
        ensures
            Self::parse(d, at) == UpdateFileGenerationStart::parse(d, at),
    {
        reveal(<Response as Wire>::parse);
        Self::routes_to_update_file_generation_start(tag_of(d)->Some_0);
    }

    /// A discriminator of `UpdateFileGenerationStop` belongs to the arm `UpdateFileGenerationStop`.
    pub proof fn routes_to_update_file_generation_stop(t: Seq<char>)
        requires
            UpdateFileGenerationStop::known(t),
        ensures
            Self::route(t) == 279,
    {
        reveal_strlit("updateFileGenerationStop");
        assert("updateFileGenerationStop"@.len() == 24);
        Self::tags_spelled_24();
    }

    /// A document whose discriminator belongs to `UpdateFileGenerationStop` decodes through the
    /// envelope exactly as it decodes through `UpdateFileGenerationStop` itself.
    pub proof fn agrees_with_update_file_generation_stop(d: Doc, at: Seq<char>)
        requires
            tag_of(d) is Some,
            UpdateFileGenerationStop::known(tag_of(d)->Some_0),
        ensures
            Self::parse(d, at) == UpdateFileGenerationStop::parse(d, at),
    {
        reveal(<Response as Wire>::parse);
        Self::routes_to_update_file_generation_stop(tag_of(d)->Some_0);
    }

    /// A discriminator of `UpdateCall` belongs to the arm `UpdateCall`.
    pub proof fn routes_to_update_call(t: Seq<char>)
        requires
            UpdateCall::known(t),
        ensures
            Self::route(t) == 280,
    {
        reveal_strlit("updateCall");
        assert("updateCall"@.len() == 10);
        Self::tags_spelled_10();
    }

    /// A document whose discriminator belongs to `UpdateCall` decodes through the envelope exactly
    /// as it decodes through `UpdateCall` itself.
    pub proof fn agrees_with_update_call(d: Doc, at: Seq<char>)
        requires
            tag_of(d) is Some,
            UpdateCall::known(tag_of(d)->Some_0),
        ensures
            Self::parse(d, at) == UpdateCall::parse(d, at),
    {
        reveal(<Response as Wire>::parse);
        Self::routes_to_update_call(tag_of(d)->Some_0);
    }

    /// A discriminator of `UpdateUserPrivacySettingRules` belongs to the arm `UpdateUserPrivacySettingRules`.
    pub proof fn routes_to_update_user_privacy_setting_rules(t: Seq<char>)
        requires
            UpdateUserPrivacySettingRules::known(t),
        ensures
            Self::route(t) == 281,
    {
        reveal_strlit("updateUserPrivacySettingRules");
        assert("updateUserPrivacySettingRules"@.len() == 29);
        Self::tags_spelled_29();
    }

    /// A document whose discriminator belongs to `UpdateUserPrivacySettingRules` decodes through
    /// the envelope exactly as it decodes through `UpdateUserPrivacySettingRules` itself.
    pub proof fn agrees_with_update_user_privacy_setting_rules(d: Doc, at: Seq<char>)
        requires
            tag_of(d) is Some,
            UpdateUserPrivacySettingRules::known(tag_of(d)->Some_0),
        ensures
            Self::parse(d, at) == UpdateUserPrivacySettingRules::parse(d, at),
    {
        reveal(<Response as Wire>::parse);
        Self::routes_to_update_user_privacy_setting_rules(tag_of(d)->Some_0);
    }

    /// A discriminator of `UpdateUnreadMessageCount` belongs to the arm `UpdateUnreadMessageCount`.
    pub proof fn routes_to_update_unread_message_count(t: Seq<char>)
        requires
            UpdateUnreadMessageCount::known(t),
        ensures
            Self::route(t) == 282,
    {
        reveal_strlit("updateUnreadMessageCount");
        assert("updateUnreadMessageCount"@.len() == 24);
        Self::tags_spelled_24();
    }

    /// A document whose discriminator belongs to `UpdateUnreadMessageCount` decodes through the
    /// envelope exactly as it decodes through `UpdateUnreadMessageCount` itself.
    pub proof fn agrees_with_update_unread_message_count(d: Doc, at: Seq<char>)
        requires
            tag_of(d) is Some,
            UpdateUnreadMessageCount::known(tag_of(d)->Some_0),
        ensures
            Self::parse(d, at) == UpdateUnreadMessageCount::parse(d, at),
    {
        reveal(<Response as Wire>::parse);
        Self::routes_to_update_unread_message_count(tag_of(d)->Some_0);
    }

    /// A discriminator of `UpdateUnreadChatCount` belongs to the arm `UpdateUnreadChatCount`.
    pub proof fn routes_to_update_unread_chat_count(t: Seq<char>)
        requires
            UpdateUnreadChatCount::known(t),
        ensures
            Self::route(t) == 283,
    {
        reveal_strlit("updateUnreadChatCount");
        assert("updateUnreadChatCount"@.len() == 21);
        Self::tags_spelled_21();
    }

    /// A document whose discriminator belongs to `UpdateUnreadChatCount` decodes through the
    /// envelope exactly as it decodes through `UpdateUnreadChatCount` itself.
    pub proof fn agrees_with_update_unread_chat_count(d: Doc, at: Seq<char>)
        requires
            tag_of(d) is Some,
            UpdateUnreadChatCount::known(tag_of(d)->Some_0),
        ensures
            Self::parse(d, at) == UpdateUnreadChatCount::parse(d, at),
    {
        reveal(<Response as Wire>::parse);
        Self::routes_to_update_unread_chat_count(tag_of(d)->Some_0);
    }

    /// A discriminator of `UpdateOption` belongs to the arm `UpdateOption`.
    pub proof fn routes_to_update_option(t: Seq<char>)
        requires
            UpdateOption::known(t),
        ensures
            Self::route(t) == 284,
    {
        reveal_strlit("updateOption");
        assert("updateOption"@.len() == 12);
        Self::tags_spelled_12();
    }

    /// A document whose discriminator belongs to `UpdateOption` decodes through the envelope
    /// exactly as it decodes through `UpdateOption` itself.
    pub proof fn agrees_with_update_option(d: Doc, at: Seq<char>)
        requires
            tag_of(d) is Some,
            UpdateOption::known(tag_of(d)->Some_0),
        ensures
            Self::parse(d, at) == UpdateOption::parse(d, at),
    {
        reveal(<Response as Wire>::parse);
        Self::routes_to_update_option(tag_of(d)->Some_0);
    }

    /// A discriminator of `UpdateInstalledStickerSets` belongs to the arm `UpdateInstalledStickerSets`.
    pub proof fn routes_to_update_installed_sticker_sets(t: Seq<char>)
        requires
            UpdateInstalledStickerSets::known(t),
        ensures
            Self::route(t) == 285,
    {
        reveal_strlit("updateInstalledStickerSets");
        assert("updateInstalledStickerSets"@.len() == 26);
        Self::tags_spelled_26();
    }

    /// A document whose discriminator belongs to `UpdateInstalledStickerSets` decodes through the
    /// envelope exactly as it decodes through `UpdateInstalledStickerSets` itself.
    pub proof fn agrees_with_update_installed_sticker_sets(d: Doc, at: Seq<char>)
        requires
            tag_of(d) is Some,
            UpdateInstalledStickerSets::known(tag_of(d)->Some_0),
        ensures
            Self::parse(d, at) == UpdateInstalledStickerSets::parse(d, at),
    {
        reveal(<Response as Wire>::parse);
        Self::routes_to_update_installed_sticker_sets(tag_of(d)->Some_0);
    }

    /// A discriminator of `UpdateTrendingStickerSets` belongs to the arm `UpdateTrendingStickerSets`.
    pub proof fn routes_to_update_trending_sticker_sets(t: Seq<char>)
        requires
            UpdateTrendingStickerSets::known(t),
        ensures
            Self::route(t) == 286,
    {
        reveal_strlit("updateTrendingStickerSets");
        assert("updateTrendingStickerSets"@.len() == 25);
        Self::tags_spelled_25();
    }

    /// A document whose discriminator belongs to `UpdateTrendingStickerSets` decodes through the
    /// envelope exactly as it decodes through `UpdateTrendingStickerSets` itself.
    pub proof fn agrees_with_update_trending_sticker_sets(d: Doc, at: Seq<char>)
        requires
            tag_of(d) is Some,
            UpdateTrendingStickerSets::known(tag_of(d)->Some_0),
        ensures
            Self::parse(d, at) == UpdateTrendingStickerSets::parse(d, at),
    {
        reveal(<Response as Wire>::parse);
        Self::routes_to_update_trending_sticker_sets(tag_of(d)->Some_0);
    }

    /// A discriminator of `UpdateRecentStickers` belongs to the arm `UpdateRecentStickers`.
    pub proof fn routes_to_update_recent_stickers(t: Seq<char>)
        requires
            UpdateRecentStickers::known(t),
        ensures
            Self::route(t) == 287,
    {
        reveal_strlit("updateRecentStickers");
        assert("updateRecentStickers"@.len() == 20);
        Self::tags_spelled_20();
    }

    /// A document whose discriminator belongs to `UpdateRecentStickers` decodes through the
    /// envelope exactly as it decodes through `UpdateRecentStickers` itself.
    pub proof fn agrees_with_update_recent_stickers(d: Doc, at: Seq<char>)
        requires
            tag_of(d) is Some,
            UpdateRecentStickers::known(tag_of(d)->Some_0),
        ensures
            Self::parse(d, at) == UpdateRecentStickers::parse(d, at),
    {
        reveal(<Response as Wire>::parse);
        Self::routes_to_update_recent_stickers(tag_of(d)->Some_0);
    }

    /// A discriminator of `UpdateFavoriteStickers` belongs to the arm `UpdateFavoriteStickers`.
    pub proof fn routes_to_update_favorite_stickers(t: Seq<char>)
        requires
            UpdateFavoriteStickers::known(t),
        ensures
            Self::route(t) == 288,
    {
        reveal_strlit("updateFavoriteStickers");
        assert("updateFavoriteStickers"@.len() == 22);
        Self::tags_spelled_22();
    }

    /// A document whose discriminator belongs to `UpdateFavoriteStickers` decodes through the
    /// envelope exactly as it decodes through `UpdateFavoriteStickers` itself.
    pub proof fn agrees_with_update_favorite_stickers(d: Doc, at: Seq<char>)
        requires
            tag_of(d) is Some,
            UpdateFavoriteStickers::known(tag_of(d)->Some_0),
        ensures
            Self::parse(d, at) == UpdateFavoriteStickers::parse(d, at),
    {
        reveal(<Response as Wire>::parse);
        Self::routes_to_update_favorite_stickers(tag_of(d)->Some_0);
    }

    /// A discriminator of `UpdateSavedAnimations` belongs to the arm `UpdateSavedAnimations`.
    pub proof fn routes_to_update_saved_animations(t: Seq<char>)
        requires
            UpdateSavedAnimations::known(t),
        ensures
            Self::route(t) == 289,
    {
        reveal_strlit("updateSavedAnimations");
        assert("updateSavedAnimations"@.len() == 21);
        Self::tags_spelled_21();
    }

    /// A document whose discriminator belongs to `UpdateSavedAnimations` decodes through the
    /// envelope exactly as it decodes through `UpdateSavedAnimations` itself.
    pub proof fn agrees_with_update_saved_animations(d: Doc, at: Seq<char>)
        requires
            tag_of(d) is Some,
            UpdateSavedAnimations::known(tag_of(d)->Some_0),
        ensures
            Self::parse(d, at) == UpdateSavedAnimations::parse(d, at),
    {
        reveal(<Response as Wire>::parse);
        Self::routes_to_update_saved_animations(tag_of(d)->Some_0);
    }

    /// A discriminator of `UpdateSelectedBackground` belongs to the arm `UpdateSelectedBackground`.
    pub proof fn routes_to_update_selected_background(t: Seq<char>)
        requires
            UpdateSelectedBackground::known(t),
        ensures
            Self::route(t) == 290,
    {
        reveal_strlit("updateSelectedBackground");
        assert("updateSelectedBackground"@.len() == 24);
        Self::tags_spelled_24();
    }

    /// A document whose discriminator belongs to `UpdateSelectedBackground` decodes through the
    /// envelope exactly as it decodes through `UpdateSelectedBackground` itself.
    pub proof fn agrees_with_update_selected_background(d: Doc, at: Seq<char>)
        requires
            tag_of(d) is Some,
            UpdateSelectedBackground::known(tag_of(d)->Some_0),
        ensures
            Self::parse(d, at) == UpdateSelectedBackground::parse(d, at),
    {
        reveal(<Response as Wire>::parse);
        Self::routes_to_update_selected_background(tag_of(d)->Some_0);
    }

    /// A discriminator of `UpdateLanguagePackStrings` belongs to the arm `UpdateLanguagePackStrings`.
    pub proof fn routes_to_update_language_pack_strings(t: Seq<char>)
        requires
            UpdateLanguagePackStrings::known(t),
        ensures
            Self::route(t) == 291,
    {
        reveal_strlit("updateLanguagePackStrings");
        assert("updateLanguagePackStrings"@.len() == 25);
        Self::tags_spelled_25();
    }

    /// A document whose discriminator belongs to `UpdateLanguagePackStrings` decodes through the
    /// envelope exactly as it decodes through `UpdateLanguagePackStrings` itself.
    pub proof fn agrees_with_update_language_pack_strings(d: Doc, at: Seq<char>)
        requires
            tag_of(d) is Some,
            UpdateLanguagePackStrings::known(tag_of(d)->Some_0),
        ensures
            Self::parse(d, at) == UpdateLanguagePackStrings::parse(d, at),
    {
        reveal(<Response as Wire>::parse);
        Self::routes_to_update_language_pack_strings(tag_of(d)->Some_0);
    }

    /// A discriminator of `UpdateConnectionState` belongs to the arm `UpdateConnectionState`.
    pub proof fn routes_to_update_connection_state(t: Seq<char>)
        requires
            UpdateConnectionState::known(t),
        ensures
            Self::route(t) == 292,
    {
        reveal_strlit("updateConnectionState");
        assert("updateConnectionState"@.len() == 21);
        Self::tags_spelled_21();
    }

    /// A document whose discriminator belongs to `UpdateConnectionState` decodes through the
    /// envelope exactly as it decodes through `UpdateConnectionState` itself.
    pub proof fn agrees_with_update_connection_state(d: Doc, at: Seq<char>)
        requires
            tag_of(d) is Some,
            UpdateConnectionState::known(tag_of(d)->Some_0),
        ensures
            Self::parse(d, at) == UpdateConnectionState::parse(d, at),
    {
        reveal(<Response as Wire>::parse);
        Self::routes_to_update_connection_state(tag_of(d)->Some_0);
    }

    /// A discriminator of `UpdateTermsOfService` belongs to the arm `UpdateTermsOfService`.
    pub proof fn routes_to_update_terms_of_service(t: Seq<char>)
        requires
            UpdateTermsOfService::known(t),
        ensures
            Self::route(t) == 293,
    {
        reveal_strlit("updateTermsOfService");
        assert("updateTermsOfService"@.len() == 20);
        Self::tags_spelled_20();
    }

    /// A document whose discriminator belongs to `UpdateTermsOfService` decodes through the
    /// envelope exactly as it decodes through `UpdateTermsOfService` itself.
    pub proof fn agrees_with_update_terms_of_service(d: Doc, at: Seq<char>)
        requires
            tag_of(d) is Some,
            UpdateTermsOfService::known(tag_of(d)->Some_0),
        ensures
            Self::parse(d, at) == UpdateTermsOfService::parse(d, at),
    {
        reveal(<Response as Wire>::parse);
        Self::routes_to_update_terms_of_service(tag_of(d)->Some_0);
    }

    /// A discriminator of `UpdateUsersNearby` belongs to the arm `UpdateUsersNearby`.
    pub proof fn routes_to_update_users_nearby(t: Seq<char>)
        requires
            UpdateUsersNearby::known(t),
        ensures
            Self::route(t) == 294,
    {
        reveal_strlit("updateUsersNearby");
        assert("updateUsersNearby"@.len() == 17);
        Self::tags_spelled_17();
    }

    /// A document whose discriminator belongs to `UpdateUsersNearby` decodes through the envelope
    /// exactly as it decodes through `UpdateUsersNearby` itself.
    pub proof fn agrees_with_update_users_nearby(d: Doc, at: Seq<char>)
        requires
            tag_of(d) is Some,
            UpdateUsersNearby::known(tag_of(d)->Some_0),
        ensures
            Self::parse(d, at) == UpdateUsersNearby::parse(d, at),
    {
        reveal(<Response as Wire>::parse);
        Self::routes_to_update_users_nearby(tag_of(d)->Some_0);
    }

    /// A discriminator of `UpdateNewInlineQuery` belongs to the arm `UpdateNewInlineQuery`.
    pub proof fn routes_to_update_new_inline_query(t: Seq<char>)
        requires
            UpdateNewInlineQuery::known(t),
        ensures
            Self::route(t) == 295,
    {
        reveal_strlit("updateNewInlineQuery");
        assert("updateNewInlineQuery"@.len() == 20);
        Self::tags_spelled_20();
    }

    /// A document whose discriminator belongs to `UpdateNewInlineQuery` decodes through the
    /// envelope exactly as it decodes through `UpdateNewInlineQuery` itself.
    pub proof fn agrees_with_update_new_inline_query(d: Doc, at: Seq<char>)
        requires
            tag_of(d) is Some,
            UpdateNewInlineQuery::known(tag_of(d)->Some_0),
        ensures
            Self::parse(d, at) == UpdateNewInlineQuery::parse(d, at),
    {
        reveal(<Response as Wire>::parse);
        Self::routes_to_update_new_inline_query(tag_of(d)->Some_0);
    }

    /// A discriminator of `UpdateNewChosenInlineResult` belongs to the arm `UpdateNewChosenInlineResult`.
    pub proof fn routes_to_update_new_chosen_inline_result(t: Seq<char>)
        requires
            UpdateNewChosenInlineResult::known(t),
        ensures
            Self::route(t) == 296,
    {
        reveal_strlit("updateNewChosenInlineResult");
        assert("updateNewChosenInlineResult"@.len() == 27);
        Self::tags_spelled_27();
    }

    /// A document whose discriminator belongs to `UpdateNewChosenInlineResult` decodes through the
    /// envelope exactly as it decodes through `UpdateNewChosenInlineResult` itself.
    pub proof fn agrees_with_update_new_chosen_inline_result(d: Doc, at: Seq<char>)
        requires
            tag_of(d) is Some,
            UpdateNewChosenInlineResult::known(tag_of(d)->Some_0),
        ensures
            Self::parse(d, at) == UpdateNewChosenInlineResult::parse(d, at),
    {
        reveal(<Response as Wire>::parse);
        Self::routes_to_update_new_chosen_inline_result(tag_of(d)->Some_0);
    }

    /// A discriminator of `UpdateNewCallbackQuery` belongs to the arm `UpdateNewCallbackQuery`.
    pub proof fn routes_to_update_new_callback_query(t: Seq<char>)
        requires
            UpdateNewCallbackQuery::known(t),
        ensures
            Self::route(t) == 297,
    {
        reveal_strlit("updateNewCallbackQuery");
        assert("updateNewCallbackQuery"@.len() == 22);
        Self::tags_spelled_22();
    }

    /// A document whose discriminator belongs to `UpdateNewCallbackQuery` decodes through the
    /// envelope exactly as it decodes through `UpdateNewCallbackQuery` itself.
    pub proof fn agrees_with_update_new_callback_query(d: Doc, at: Seq<char>)
        requires
            tag_of(d) is Some,
            UpdateNewCallbackQuery::known(tag_of(d)->Some_0),
        ensures
            Self::parse(d, at) == UpdateNewCallbackQuery::parse(d, at),
    {
        reveal(<Response as Wire>::parse);
        Self::routes_to_update_new_callback_query(tag_of(d)->Some_0);
    }

    /// A discriminator of `UpdateNewInlineCallbackQuery` belongs to the arm `UpdateNewInlineCallbackQuery`.
    pub proof fn routes_to_update_new_inline_callback_query(t: Seq<char>)
        requires
            UpdateNewInlineCallbackQuery::known(t),
        ensures
            Self::route(t) == 298,
    {
        reveal_strlit("updateNewInlineCallbackQuery");
        assert("updateNewInlineCallbackQuery"@.len() == 28);
        Self::tags_spelled_28();
    }

    /// A document whose discriminator belongs to `UpdateNewInlineCallbackQuery` decodes through the
    /// envelope exactly as it decodes through `UpdateNewInlineCallbackQuery` itself.
    pub proof fn agrees_with_update_new_inline_callback_query(d: Doc, at: Seq<char>)
        requires
            tag_of(d) is Some,
            UpdateNewInlineCallbackQuery::known(tag_of(d)->Some_0),
        ensures
            Self::parse(d, at) == UpdateNewInlineCallbackQuery::parse(d, at),
    {
        reveal(<Response as Wire>::parse);
        Self::routes_to_update_new_inline_callback_query(tag_of(d)->Some_0);
    }

    /// A discriminator of `UpdateNewShippingQuery` belongs to the arm `UpdateNewShippingQuery`.
    pub proof fn routes_to_update_new_shipping_query(t: Seq<char>)
        requires
            UpdateNewShippingQuery::known(t),
        ensures
            Self::route(t) == 299,
    {
        reveal_strlit("updateNewShippingQuery");
        assert("updateNewShippingQuery"@.len() == 22);
        Self::tags_spelled_22();
    }

    /// A document whose discriminator belongs to `UpdateNewShippingQuery` decodes through the
    /// envelope exactly as it decodes through `UpdateNewShippingQuery` itself.
    pub proof fn agrees_with_update_new_shipping_query(d: Doc, at: Seq<char>)
        requires
            tag_of(d) is Some,
            UpdateNewShippingQuery::known(tag_of(d)->Some_0),
        ensures
            Self::parse(d, at) == UpdateNewShippingQuery::parse(d, at),
    {
        reveal(<Response as Wire>::parse);
        Self::routes_to_update_new_shipping_query(tag_of(d)->Some_0);
    }

    /// A discriminator of `UpdateNewPreCheckoutQuery` belongs to the arm `UpdateNewPreCheckoutQuery`.
    pub proof fn routes_to_update_new_pre_checkout_query(t: Seq<char>)
        requires
            UpdateNewPreCheckoutQuery::known(t),
        ensures
            Self::route(t) == 300,
    {
        reveal_strlit("updateNewPreCheckoutQuery");
        assert("updateNewPreCheckoutQuery"@.len() == 25);
        Self::tags_spelled_25();
    }

    /// A document whose discriminator belongs to `UpdateNewPreCheckoutQuery` decodes through the
    /// envelope exactly as it decodes through `UpdateNewPreCheckoutQuery` itself.
    pub proof fn agrees_with_update_new_pre_checkout_query(d: Doc, at: Seq<char>)
        requires
            tag_of(d) is Some,
            UpdateNewPreCheckoutQuery::known(tag_of(d)->Some_0),
        ensures
            Self::parse(d, at) == UpdateNewPreCheckoutQuery::parse(d, at),
    {
        reveal(<Response as Wire>::parse);
        Self::routes_to_update_new_pre_checkout_query(tag_of(d)->Some_0);
    }

    /// A discriminator of `UpdateNewCustomEvent` belongs to the arm `UpdateNewCustomEvent`.
    pub proof fn routes_to_update_new_custom_event(t: Seq<char>)
        requires
            UpdateNewCustomEvent::known(t),
        ensures
            Self::route(t) == 301,
    {
        reveal_strlit("updateNewCustomEvent");
        assert("updateNewCustomEvent"@.len() == 20);
        Self::tags_spelled_20();
    }

    /// A document whose discriminator belongs to `UpdateNewCustomEvent` decodes through the
    /// envelope exactly as it decodes through `UpdateNewCustomEvent` itself.
    pub proof fn agrees_with_update_new_custom_event(d: Doc, at: Seq<char>)
        requires
            tag_of(d) is Some,
            UpdateNewCustomEvent::known(tag_of(d)->Some_0),
        ensures
            Self::parse(d, at) == UpdateNewCustomEvent::parse(d, at),
    {
        reveal(<Response as Wire>::parse);
        Self::routes_to_update_new_custom_event(tag_of(d)->Some_0);
    }

    /// A discriminator of `UpdateNewCustomQuery` belongs to the arm `UpdateNewCustomQuery`.
    pub proof fn routes_to_update_new_custom_query(t: Seq<char>)
        requires
            UpdateNewCustomQuery::known(t),
        ensures
            Self::route(t) == 302,
    {
        reveal_strlit("updateNewCustomQuery");
        assert("updateNewCustomQuery"@.len() == 20);
        Self::tags_spelled_20();
    }

    /// A document whose discriminator belongs to `UpdateNewCustomQuery` decodes through the
    /// envelope exactly as it decodes through `UpdateNewCustomQuery` itself.
    pub proof fn agrees_with_update_new_custom_query(d: Doc, at: Seq<char>)
        requires
            tag_of(d) is Some,
            UpdateNewCustomQuery::known(tag_of(d)->Some_0),
        ensures
            Self::parse(d, at) == UpdateNewCustomQuery::parse(d, at),
    {
        reveal(<Response as Wire>::parse);
        Self::routes_to_update_new_custom_query(tag_of(d)->Some_0);
    }

    /// A discriminator of `UpdatePoll` belongs to the arm `UpdatePoll`.
    pub proof fn routes_to_update_poll(t: Seq<char>)
        requires
            UpdatePoll::known(t),
        ensures
            Self::route(t) == 303,
    {
        reveal_strlit("updatePoll");
        assert("updatePoll"@.len() == 10);
        Self::tags_spelled_10();
    }

    /// A document whose discriminator belongs to `UpdatePoll` decodes through the envelope exactly
    /// as it decodes through `UpdatePoll` itself.
    pub proof fn agrees_with_update_poll(d: Doc, at: Seq<char>)
        requires
            tag_of(d) is Some,
            UpdatePoll::known(tag_of(d)->Some_0),
        ensures
            Self::parse(d, at) == UpdatePoll::parse(d, at),
    {
        reveal(<Response as Wire>::parse);
        Self::routes_to_update_poll(tag_of(d)->Some_0);
    }

    /// A discriminator of `UpdatePollAnswer` belongs to the arm `UpdatePollAnswer`.
    pub proof fn routes_to_update_poll_answer(t: Seq<char>)
        requires
            UpdatePollAnswer::known(t),
        ensures
            Self::route(t) == 304,
    {
        reveal_strlit("updatePollAnswer");
        assert("updatePollAnswer"@.len() == 16);
        Self::tags_spelled_16();
    }

    /// A document whose discriminator belongs to `UpdatePollAnswer` decodes through the envelope
    /// exactly as it decodes through `UpdatePollAnswer` itself.
    pub proof fn agrees_with_update_poll_answer(d: Doc, at: Seq<char>)
        requires
            tag_of(d) is Some,
            UpdatePollAnswer::known(tag_of(d)->Some_0),
        ensures
            Self::parse(d, at) == UpdatePollAnswer::parse(d, at),
    {
        reveal(<Response as Wire>::parse);
        Self::routes_to_update_poll_answer(tag_of(d)->Some_0);
    }

    /// A discriminator of `Updates` belongs to the arm `Updates`.
    pub proof fn routes_to_updates(t: Seq<char>)
        requires
            Updates::known(t),
        ensures
            Self::route(t) == 305,
    {
        reveal_strlit("updates");
        assert("updates"@.len() == 7);
        Self::tags_spelled_7();
    }

    /// A document whose discriminator belongs to `Updates` decodes through the envelope exactly as
    /// it decodes through `Updates` itself.
    pub proof fn agrees_with_updates(d: Doc, at: Seq<char>)
        requires
            tag_of(d) is Some,
            Updates::known(tag_of(d)->Some_0),
        ensures
            Self::parse(d, at) == Updates::parse(d, at),
    {
        reveal(<Response as Wire>::parse);
        Self::routes_to_updates(tag_of(d)->Some_0);
    }

    /// A discriminator of `LogStream` belongs to the arm `LogStream`.
    pub proof fn routes_to_log_stream(t: Seq<char>)
        requires
            LogStream::known(t),
        ensures
            Self::route(t) == 306,
    {
        reveal_strlit("logStreamDefault");
        reveal_strlit("logStreamFile");
        reveal_strlit("logStreamEmpty");
        assert("logStreamDefault"@.len() == 16);
        assert("logStreamFile"@.len() == 13);
        assert("logStreamEmpty"@.len() == 14);
        Self::tags_spelled_13();
        Self::tags_spelled_14();
        Self::tags_spelled_16();
    }

    /// A document whose discriminator belongs to `LogStream` decodes through the envelope exactly
    /// as it decodes through `LogStream` itself.
    pub proof fn agrees_with_log_stream(d: Doc, at: Seq<char>)
        requires
            tag_of(d) is Some,
            LogStream::known(tag_of(d)->Some_0),
        ensures
            Self::parse(d, at) == LogStream::parse(d, at),
    {
        reveal(<Response as Wire>::parse);
        Self::routes_to_log_stream(tag_of(d)->Some_0);
    }

    /// A discriminator of `LogVerbosityLevel` belongs to the arm `LogVerbosityLevel`.
    pub proof fn routes_to_log_verbosity_level(t: Seq<char>)
        requires
            LogVerbosityLevel::known(t),
        ensures
            Self::route(t) == 307,
    {
        reveal_strlit("logVerbosityLevel");
        assert("logVerbosityLevel"@.len() == 17);
        Self::tags_spelled_17();
    }

    /// A document whose discriminator belongs to `LogVerbosityLevel` decodes through the envelope
    /// exactly as it decodes through `LogVerbosityLevel` itself.
    pub proof fn agrees_with_log_verbosity_level(d: Doc, at: Seq<char>)
        requires
            tag_of(d) is Some,
            LogVerbosityLevel::known(tag_of(d)->Some_0),
        ensures
            Self::parse(d, at) == LogVerbosityLevel::parse(d, at),
    {
        reveal(<Response as Wire>::parse);
        Self::routes_to_log_verbosity_level(tag_of(d)->Some_0);
    }

    /// A discriminator of `LogTags` belongs to the arm `LogTags`.
    pub proof fn routes_to_log_tags(t: Seq<char>)
        requires
            LogTags::known(t),
        ensures
            Self::route(t) == 308,
    {
        reveal_strlit("logTags");
        assert("logTags"@.len() == 7);
        Self::tags_spelled_7();
    }

    /// A document whose discriminator belongs to `LogTags` decodes through the envelope exactly as
    /// it decodes through `LogTags` itself.
    pub proof fn agrees_with_log_tags(d: Doc, at: Seq<char>)
        requires
            tag_of(d) is Some,
            LogTags::known(tag_of(d)->Some_0),
        ensures
            Self::parse(d, at) == LogTags::parse(d, at),
    {
        reveal(<Response as Wire>::parse);
        Self::routes_to_log_tags(tag_of(d)->Some_0);
    }

    /// A discriminator of `TestInt` belongs to the arm `TestInt`.
    pub proof fn routes_to_test_int(t: Seq<char>)
        requires
            TestInt::known(t),
        ensures
            Self::route(t) == 309,
    {
        reveal_strlit("testInt");
        assert("testInt"@.len() == 7);
        Self::tags_spelled_7();
    }

    /// A document whose discriminator belongs to `TestInt` decodes through the envelope exactly as
    /// it decodes through `TestInt` itself.
    pub proof fn agrees_with_test_int(d: Doc, at: Seq<char>)
        requires
            tag_of(d) is Some,
            TestInt::known(tag_of(d)->Some_0),
        ensures
            Self::parse(d, at) == TestInt::parse(d, at),
    {
        reveal(<Response as Wire>::parse);
        Self::routes_to_test_int(tag_of(d)->Some_0);
    }

    /// A discriminator of `TestString` belongs to the arm `TestString`.
    pub proof fn routes_to_test_string(t: Seq<char>)
        requires
            TestString::known(t),
        ensures
            Self::route(t) == 310,
    {
        reveal_strlit("testString");
        assert("testString"@.len() == 10);
        Self::tags_spelled_10();
    }

    /// A document whose discriminator belongs to `TestString` decodes through the envelope exactly
    /// as it decodes through `TestString` itself.
    pub proof fn agrees_with_test_string(d: Doc, at: Seq<char>)
        requires
            tag_of(d) is Some,
            TestString::known(tag_of(d)->Some_0),
        ensures
            Self::parse(d, at) == TestString::parse(d, at),
    {
        reveal(<Response as Wire>::parse);
        Self::routes_to_test_string(tag_of(d)->Some_0);
    }

    /// A discriminator of `TestBytes` belongs to the arm `TestBytes`.
    pub proof fn routes_to_test_bytes(t: Seq<char>)
        requires
            TestBytes::known(t),
        ensures
            Self::route(t) == 311,
    {
        reveal_strlit("testBytes");
        assert("testBytes"@.len() == 9);
        Self::tags_spelled_9();
    }

    /// A document whose discriminator belongs to `TestBytes` decodes through the envelope exactly
    /// as it decodes through `TestBytes` itself.
    pub proof fn agrees_with_test_bytes(d: Doc, at: Seq<char>)
        requires
            tag_of(d) is Some,
            TestBytes::known(tag_of(d)->Some_0),
        ensures
            Self::parse(d, at) == TestBytes::parse(d, at),
    {
        reveal(<Response as Wire>::parse);
        Self::routes_to_test_bytes(tag_of(d)->Some_0);
    }

    /// A discriminator of `TestVectorInt` belongs to the arm `TestVectorInt`.
    pub proof fn routes_to_test_vector_int(t: Seq<char>)
        requires
            TestVectorInt::known(t),
        ensures
            Self::route(t) == 312,
    {
        reveal_strlit("testVectorInt");
        assert("testVectorInt"@.len() == 13);
        Self::tags_spelled_13();
    }

    /// A document whose discriminator belongs to `TestVectorInt` decodes through the envelope
    /// exactly as it decodes through `TestVectorInt` itself.
    pub proof fn agrees_with_test_vector_int(d: Doc, at: Seq<char>)
        requires
            tag_of(d) is Some,
            TestVectorInt::known(tag_of(d)->Some_0),
        ensures
            Self::parse(d, at) == TestVectorInt::parse(d, at),
    {
        reveal(<Response as Wire>::parse);
        Self::routes_to_test_vector_int(tag_of(d)->Some_0);
    }

    /// A discriminator of `TestVectorIntObject` belongs to the arm `TestVectorIntObject`.
    pub proof fn routes_to_test_vector_int_object(t: Seq<char>)
        requires
            TestVectorIntObject::known(t),
        ensures
            Self::route(t) == 313,
    {
        reveal_strlit("testVectorIntObject");
        assert("testVectorIntObject"@.len() == 19);
        Self::tags_spelled_19();
    }

    /// A document whose discriminator belongs to `TestVectorIntObject` decodes through the envelope
    /// exactly as it decodes through `TestVectorIntObject` itself.
    pub proof fn agrees_with_test_vector_int_object(d: Doc, at: Seq<char>)
        requires
            tag_of(d) is Some,
            TestVectorIntObject::known(tag_of(d)->Some_0),
        ensures
            Self::parse(d, at) == TestVectorIntObject::parse(d, at),
    {
        reveal(<Response as Wire>::parse);
        Self::routes_to_test_vector_int_object(tag_of(d)->Some_0);
    }

    /// A discriminator of `TestVectorString` belongs to the arm `TestVectorString`.
    pub proof fn routes_to_test_vector_string(t: Seq<char>)
        requires
            TestVectorString::known(t),
        ensures
            Self::route(t) == 314,
    {
        reveal_strlit("testVectorString");
        assert("testVectorString"@.len() == 16);
        Self::tags_spelled_16();
    }

    /// A document whose discriminator belongs to `TestVectorString` decodes through the envelope
    /// exactly as it decodes through `TestVectorString` itself.
    pub proof fn agrees_with_test_vector_string(d: Doc, at: Seq<char>)
        requires
            tag_of(d) is Some,
            TestVectorString::known(tag_of(d)->Some_0),
        ensures
            Self::parse(d, at) == TestVectorString::parse(d, at),
    {
        reveal(<Response as Wire>::parse);
        Self::routes_to_test_vector_string(tag_of(d)->Some_0);
    }

    /// A discriminator of `TestVectorStringObject` belongs to the arm `TestVectorStringObject`.
    pub proof fn routes_to_test_vector_string_object(t: Seq<char>)
        requires
            TestVectorStringObject::known(t),
        ensures
            Self::route(t) == 315,
    {
        reveal_strlit("testVectorStringObject");
        assert("testVectorStringObject"@.len() == 22);
        Self::tags_spelled_22();
    }

    /// A document whose discriminator belongs to `TestVectorStringObject` decodes through the
    /// envelope exactly as it decodes through `TestVectorStringObject` itself.
    pub proof fn agrees_with_test_vector_string_object(d: Doc, at: Seq<char>)
        requires
            tag_of(d) is Some,
            TestVectorStringObject::known(tag_of(d)->Some_0),
        ensures
            Self::parse(d, at) == TestVectorStringObject::parse(d, at),
    {
        reveal(<Response as Wire>::parse);
        Self::routes_to_test_vector_string_object(tag_of(d)->Some_0);
    }
}

} // verus!
