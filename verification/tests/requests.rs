use tdlib_types::codec::{find, Wire};
use tdlib_types::error::DecodeError;
use tdlib_types::json::{Json, Member, Number};
use tdlib_types::methods::{
    decode_reply, GetAuthorizationState, GetChat, Method, MethodType, ReplyError, SearchPublicChat,
    SetAlarm, TestReturnError, TestSquareInt,
};
use tdlib_types::types::{
    AuthorizationState, AuthorizationStateReady, Chat, ChatList, ChatListMain,
    ChatNotificationSettings, ChatPermissions, ChatType, ChatTypePrivate, Error, Okay, TestInt,
};

fn text(s: &str) -> Json {
    Json::Text(s.to_string())
}

fn object(members: Vec<(&str, Json)>) -> Json {
    Json::Object(
        members.into_iter().map(|(key, value)| Member { key: key.to_string(), value }).collect(),
    )
}

fn members(j: &Json) -> &Vec<Member> {
    match j {
        Json::Object(members) => members,
        _ => panic!("not an object"),
    }
}

fn chat() -> Chat {
    Chat {
        id: 77,
        type_: ChatType::ChatTypePrivate(ChatTypePrivate { user_id: 12 }),
        chat_list: Some(ChatList::ChatListMain(ChatListMain {})),
        title: "Ada".to_string(),
        photo: None,
        permissions: ChatPermissions {
            can_send_messages: true,
            can_send_media_messages: true,
            can_send_polls: false,
            can_send_other_messages: true,
            can_add_web_page_previews: true,
            can_change_info: false,
            can_invite_users: false,
            can_pin_messages: false,
        },
        last_message: None,
        order: i64::MAX,
        is_pinned: false,
        is_marked_as_unread: false,
        is_sponsored: false,
        has_scheduled_messages: false,
        can_be_deleted_only_for_self: true,
        can_be_deleted_for_all_users: false,
        can_be_reported: false,
        default_disable_notification: false,
        unread_count: 3,
        last_read_inbox_message_id: 1048576,
        last_read_outbox_message_id: 2097152,
        unread_mention_count: 0,
        notification_settings: ChatNotificationSettings {
            use_default_mute_for: true,
            mute_for: 0,
            use_default_sound: true,
            sound: "default".to_string(),
            use_default_show_preview: true,
            show_preview: true,
            use_default_disable_pinned_message_notifications: true,
            disable_pinned_message_notifications: false,
            use_default_disable_mention_notifications: true,
            disable_mention_notifications: false,
        },
        action_bar: None,
        pinned_message_id: 0,
        reply_markup_message_id: 0,
        draft_message: None,
        client_data: String::new(),
    }
}

#[test]
fn a_request_knows_its_discriminator() {
    assert_eq!(GetChat::TYPE, "getChat");
    assert_eq!(GetAuthorizationState::TYPE, "getAuthorizationState");
    assert_eq!(TestSquareInt::TYPE, "testSquareInt");
    let tagged: MethodType<GetChat> = GetChat { chat_id: 5 }.tag();
    assert_eq!(tagged.type_, "getChat");
    assert_eq!(tagged.payload.chat_id, 5);
}

#[test]
fn a_tagged_request_encodes_to_one_flat_object() {
    let j = GetChat { chat_id: 5 }.tag().encode();
    assert_eq!(find(members(&j), "@type"), Some(&text("getChat")));
    assert_eq!(find(members(&j), "chatId"), Some(&Json::Int(5)));
    let j = SearchPublicChat { username: "ada".to_string() }.tag().encode();
    assert_eq!(find(members(&j), "@type"), Some(&text("searchPublicChat")));
    assert_eq!(find(members(&j), "username"), Some(&text("ada")));
    let j = GetAuthorizationState {}.tag().encode();
    assert_eq!(find(members(&j), "@type"), Some(&text("getAuthorizationState")));
    let other = MethodType { type_: "renamed", payload: TestSquareInt { x: 4 } };
    let j = other.encode();
    assert_eq!(find(members(&j), "@type"), Some(&text("renamed")));
    assert_eq!(find(members(&j), "x"), Some(&Json::Int(4)));
}

#[test]
fn a_request_round_trips_like_any_object() {
    let r = GetChat { chat_id: -9 };
    let back = GetChat::decode(&r.encode(), "").unwrap();
    assert_eq!(back.chat_id, -9);
    let r = SetAlarm { seconds: Number::Real(1.5f64.to_bits()) };
    let back = SetAlarm::decode(&r.encode(), "").unwrap();
    assert_eq!(back.seconds, Number::Real(1.5f64.to_bits()));
}

#[test]
fn a_reply_of_the_bound_type_is_handed_over_as_that_type() {
    let reply = chat().encode();
    assert_eq!(find(members(&reply), "@type"), Some(&text("chat")));
    assert_eq!(find(members(&reply), "order"), Some(&text("9223372036854775807")));
    let got: Chat = decode_reply::<GetChat>(&reply).unwrap();
    assert_eq!(got, chat());

    let reply = object(vec![("@type", text("testInt")), ("value", Json::Int(16))]);
    assert_eq!(decode_reply::<TestSquareInt>(&reply), Ok(TestInt { value: 16 }));

    let reply = object(vec![("@type", text("authorizationStateReady"))]);
    assert_eq!(
        decode_reply::<GetAuthorizationState>(&reply),
        Ok(AuthorizationState::AuthorizationStateReady(AuthorizationStateReady {}))
    );
}

#[test]
fn an_error_reply_is_an_error_response() {
    let reply = object(vec![
        ("@type", text("error")),
        ("code", Json::Int(400)),
        ("message", text("CHAT_ID_INVALID")),
    ]);
    let expected = Error { code: 400, message: "CHAT_ID_INVALID".to_string() };
    assert_eq!(decode_reply::<GetChat>(&reply), Err(ReplyError::ErrorResponse(expected.clone())));
    assert_eq!(
        decode_reply::<GetAuthorizationState>(&reply),
        Err(ReplyError::ErrorResponse(expected.clone()))
    );
    assert_eq!(
        decode_reply::<TestReturnError>(&reply),
        Err(ReplyError::ErrorResponse(expected))
    );
    let broken = object(vec![("@type", text("error")), ("code", Json::Int(400))]);
    assert_eq!(
        decode_reply::<GetChat>(&broken),
        Err(ReplyError::Decode(DecodeError::MissingField("message".to_string())))
    );
}

#[test]
fn a_reply_of_another_type_is_not_forced_into_the_bound_one() {
    let ok = Okay {}.encode();
    assert_eq!(
        decode_reply::<GetChat>(&ok),
        Err(ReplyError::Decode(DecodeError::UnknownVariant("ok".to_string())))
    );
    let reply = object(vec![("@type", text("chat"))]);
    assert_eq!(
        decode_reply::<GetChat>(&reply),
        Err(ReplyError::Decode(DecodeError::MissingField("id".to_string())))
    );
    assert_eq!(
        decode_reply::<GetAuthorizationState>(&reply),
        Err(ReplyError::Decode(DecodeError::UnknownVariant("chat".to_string())))
    );
    let reply = object(vec![("id", Json::Int(1))]);
    assert_eq!(
        decode_reply::<GetChat>(&reply),
        Err(ReplyError::Decode(DecodeError::MissingDiscriminator))
    );
    assert_eq!(
        decode_reply::<GetChat>(&Json::Null),
        Err(ReplyError::Decode(DecodeError::TypeMismatch(String::new())))
    );
}

#[test]
fn a_tagged_request_is_the_document_of_the_request() {
    let r = GetChat { chat_id: 5 };
    assert_eq!(find(members(&r.encode()), "@type"), Some(&text(GetChat::TYPE)));
    let sent = r.clone().tag().encode();
    assert_eq!(find(members(&sent), "@type"), find(members(&r.encode()), "@type"));
    assert_eq!(find(members(&sent), "chatId"), find(members(&r.encode()), "chatId"));
    assert_eq!(GetChat::decode(&sent, "").unwrap().chat_id, 5);
}
