use tdlib_types::codec::{decode_tagged, Tagged, Wire};
use tdlib_types::error::DecodeError;
use tdlib_types::json::{Json, Member};
use tdlib_types::types::{
    AuthorizationState, AuthorizationStateReady, AuthorizationStateWaitCode, AuthenticationCodeInfo,
    AuthenticationCodeType, AuthenticationCodeTypeSms, ConnectionState, ConnectionStateReady,
    Error, Okay, Response, RichText, RichTextBold, RichTextPlain, TestInt, UpdateConnectionState,
    UpdateAuthorizationState, Update,
};

fn text(s: &str) -> Json {
    Json::Text(s.to_string())
}

fn object(members: Vec<(&str, Json)>) -> Json {
    Json::Object(
        members.into_iter().map(|(key, value)| Member { key: key.to_string(), value }).collect(),
    )
}

#[test]
fn the_envelope_decodes_objects_that_stand_alone() {
    let j = object(vec![("@type", text("ok"))]);
    assert_eq!(Response::decode(&j, ""), Ok(Response::Okay(Okay {})));
    let j = object(vec![("@type", text("error")), ("code", Json::Int(3)), ("message", text("m"))]);
    assert_eq!(
        Response::decode(&j, ""),
        Ok(Response::Error(Error { code: 3, message: "m".to_string() }))
    );
    let j = object(vec![("value", Json::Int(9)), ("@type", text("testInt"))]);
    assert_eq!(Response::decode(&j, ""), Ok(Response::TestInt(TestInt { value: 9 })));
    assert_eq!(decode_tagged::<Response>(&j), Ok(Response::TestInt(TestInt { value: 9 })));
}

#[test]
fn the_envelope_agrees_with_the_decoder_of_each_union() {
    let ready = object(vec![("@type", text("authorizationStateReady"))]);
    let own = AuthorizationState::decode(&ready, "").unwrap();
    assert_eq!(own, AuthorizationState::AuthorizationStateReady(AuthorizationStateReady {}));
    assert_eq!(Response::decode(&ready, ""), Ok(Response::AuthorizationState(own)));

    let sms = object(vec![("@type", text("authenticationCodeTypeSms")), ("length", Json::Int(5))]);
    let own = AuthenticationCodeType::decode(&sms, "").unwrap();
    assert_eq!(Response::decode(&sms, ""), Ok(Response::AuthenticationCodeType(own)));

    let bold = object(vec![
        ("@type", text("richTextBold")),
        ("text", object(vec![("@type", text("richTextPlain")), ("text", text("hi"))])),
    ]);
    let own = RichText::decode(&bold, "").unwrap();
    assert_eq!(
        own,
        RichText::RichTextBold(RichTextBold {
            text: Box::new(RichText::RichTextPlain(RichTextPlain { text: "hi".to_string() }))
        })
    );
    assert_eq!(Response::decode(&bold, ""), Ok(Response::RichText(own)));

    let state = object(vec![("@type", text("connectionStateReady"))]);
    let own = ConnectionState::decode(&state, "").unwrap();
    assert_eq!(Response::decode(&state, ""), Ok(Response::ConnectionState(own)));
}

#[test]
fn the_envelope_reports_the_faults_of_the_arm_it_picked() {
    let sms = object(vec![("@type", text("authenticationCodeTypeSms"))]);
    assert_eq!(
        AuthenticationCodeType::decode(&sms, ""),
        Err(DecodeError::MissingField("length".to_string()))
    );
    assert_eq!(Response::decode(&sms, ""), Err(DecodeError::MissingField("length".to_string())));
    let j = object(vec![("@type", text("error")), ("code", text("3")), ("message", text("m"))]);
    assert_eq!(Response::decode(&j, ""), Err(DecodeError::TypeMismatch("code".to_string())));
}

#[test]
fn updates_come_through_the_envelope_as_their_own_arms() {
    let j = object(vec![
        ("@type", text("updateConnectionState")),
        ("state", object(vec![("@type", text("connectionStateReady"))])),
    ]);
    let update = UpdateConnectionState {
        state: ConnectionState::ConnectionStateReady(ConnectionStateReady {}),
    };
    assert_eq!(Response::decode(&j, ""), Ok(Response::UpdateConnectionState(update.clone())));
    assert_eq!(Update::decode(&j, ""), Ok(Update::UpdateConnectionState(update)));

    let info = AuthenticationCodeInfo {
        phone_number: "1".to_string(),
        type_: AuthenticationCodeType::AuthenticationCodeTypeSms(AuthenticationCodeTypeSms {
            length: 5,
        }),
        next_type: None,
        timeout: 1,
    };
    let update = UpdateAuthorizationState {
        authorization_state: AuthorizationState::AuthorizationStateWaitCode(
            AuthorizationStateWaitCode { code_info: info },
        ),
    };
    let wire = update.encode();
    assert_eq!(Response::decode(&wire, ""), Ok(Response::UpdateAuthorizationState(update.clone())));
    assert_eq!(Response::UpdateAuthorizationState(update).encode(), wire);
}

#[test]
fn the_envelope_rejects_what_it_does_not_know() {
    for tag in ["", "Error", "okay", "update", "authorizationState", "getMe", "updateFromTheFuture"] {
        let j = object(vec![("@type", text(tag))]);
        assert_eq!(Response::decode(&j, ""), Err(DecodeError::UnknownVariant(tag.to_string())));
        assert!(!Response::knows(tag));
        assert_eq!(Response::route_of(tag), 0);
    }
    let j = object(vec![("type", text("ok"))]);
    assert_eq!(Response::decode(&j, ""), Err(DecodeError::MissingDiscriminator));
    assert_eq!(
        Response::decode(&Json::Bool(true), "message"),
        Err(DecodeError::TypeMismatch("message".to_string()))
    );
}

#[test]
fn the_route_of_a_discriminator_is_the_number_of_its_arm() {
    assert_eq!(Response::ARMS, 315);
    assert_eq!(Response::route_of("error"), 1);
    assert_eq!(Response::route_of("ok"), 2);
    assert_eq!(Response::route_of("tdlibParameters"), 3);
    assert_eq!(Response::route_of("authenticationCodeTypeTelegramMessage"), 4);
    assert_eq!(Response::route_of("authenticationCodeTypeSms"), 4);
    assert_eq!(Response::route_of("authenticationCodeTypeFlashCall"), 4);
    assert_eq!(Response::route_of("authenticationCodeInfo"), 5);
    assert_eq!(Response::route_of("testVectorStringObject"), 315);
    assert!(Response::knows("updateNewMessage"));
    assert!(Response::knows("richTextPlain"));
}

#[test]
fn the_envelope_writes_what_its_arm_writes() {
    let e = Error { code: 1, message: "m".to_string() };
    assert_eq!(Response::Error(e.clone()).encode(), e.encode());
    let state = AuthorizationState::AuthorizationStateReady(AuthorizationStateReady {});
    assert_eq!(Response::AuthorizationState(state.clone()).encode(), state.encode());
    assert_eq!(
        Response::decode(&Response::AuthorizationState(state.clone()).encode(), ""),
        Ok(Response::AuthorizationState(state))
    );
}

#[test]
fn updates_are_told_from_answers() {
    let update = Response::UpdateConnectionState(UpdateConnectionState {
        state: ConnectionState::ConnectionStateReady(ConnectionStateReady {}),
    });
    assert!(update.is_update());
    assert!(!Response::Okay(Okay {}).is_update());
    assert!(!Response::Error(Error { code: 0, message: String::new() }).is_update());
    let state = AuthorizationState::AuthorizationStateReady(AuthorizationStateReady {});
    assert!(!Response::AuthorizationState(state).is_update());
}
