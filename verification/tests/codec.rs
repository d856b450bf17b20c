use tdlib_types::codec::{decode_tagged, find, read_field, read_optional, read_wide, Tagged, Wire};
use tdlib_types::error::DecodeError;
use tdlib_types::json::{Json, Member, Number};
use tdlib_types::types::{
    AuthenticationCodeInfo, AuthenticationCodeType, AuthenticationCodeTypeCall,
    AuthenticationCodeTypeFlashCall, AuthenticationCodeTypeSms, Error, Location, Okay,
    StickerSetInfo, TestVectorInt, TextEntities,
};

fn text(s: &str) -> Json {
    Json::Text(s.to_string())
}

fn object(members: Vec<(&str, Json)>) -> Json {
    Json::Object(
        members.into_iter().map(|(key, value)| Member { key: key.to_string(), value }).collect(),
    )
}

fn members(j: &Json) -> &Vec<Member> {
    match j {
        Json::Object(members) => members,
        _ => panic!("not an object"),
    }
}

fn sms(length: i64) -> Json {
    object(vec![("@type", text("authenticationCodeTypeSms")), ("length", Json::Int(length))])
}

#[test]
fn a_struct_encodes_to_its_fields_and_its_discriminator() {
    let e = Error { code: 404, message: "Not Found".to_string() };
    let j = e.encode();
    assert_eq!(
        j,
        object(vec![
            ("code", Json::Int(404)),
            ("message", text("Not Found")),
            ("@type", text("error")),
        ])
    );
    assert_eq!(Okay {}.encode(), object(vec![("@type", text("ok"))]));
}

#[test]
fn decoding_what_was_encoded_gives_the_value_back() {
    let e = Error { code: -7, message: String::new() };
    assert_eq!(Error::decode(&e.encode(), ""), Ok(e));
    let info = AuthenticationCodeInfo {
        phone_number: "+100200300".to_string(),
        type_: AuthenticationCodeType::AuthenticationCodeTypeSms(AuthenticationCodeTypeSms {
            length: 5,
        }),
        next_type: Some(AuthenticationCodeType::AuthenticationCodeTypeFlashCall(
            AuthenticationCodeTypeFlashCall { pattern: "+7***".to_string() },
        )),
        timeout: 60,
    };
    assert_eq!(AuthenticationCodeInfo::decode(&info.encode(), ""), Ok(info.clone()));
    assert_eq!(decode_tagged::<AuthenticationCodeInfo>(&info.encode()), Ok(info));
    let v = TestVectorInt { value: vec![i32::MIN, -1, 0, 1, i32::MAX] };
    assert_eq!(TestVectorInt::decode(&v.encode(), ""), Ok(v));
    let none = TextEntities { entities: Vec::new() };
    assert_eq!(TextEntities::decode(&none.encode(), ""), Ok(none));
}

#[test]
fn field_keys_are_lower_camel_case() {
    let info = AuthenticationCodeInfo {
        phone_number: "1".to_string(),
        type_: AuthenticationCodeType::AuthenticationCodeTypeCall(AuthenticationCodeTypeCall {
            length: 4,
        }),
        next_type: None,
        timeout: 3,
    };
    let j = info.encode();
    let keys: Vec<&str> = members(&j).iter().map(|m| m.key.as_str()).collect();
    assert_eq!(keys, vec!["phoneNumber", "type", "nextType", "timeout", "@type"]);
    assert_eq!(find(members(&j), "phoneNumber"), Some(&text("1")));
    assert_eq!(find(members(&j), "phone_number"), None);
    assert_eq!(find(members(&j), "@type"), Some(&text("authenticationCodeInfo")));
}

#[test]
fn none_is_written_as_an_explicit_null() {
    let info = AuthenticationCodeInfo {
        phone_number: "1".to_string(),
        type_: AuthenticationCodeType::AuthenticationCodeTypeSms(AuthenticationCodeTypeSms {
            length: 4,
        }),
        next_type: None,
        timeout: 3,
    };
    assert_eq!(find(members(&info.encode()), "nextType"), Some(&Json::Null));
}

#[test]
fn an_absent_or_null_optional_field_decodes_to_none() {
    let absent = object(vec![
        ("phoneNumber", text("1")),
        ("type", sms(4)),
        ("timeout", Json::Int(3)),
    ]);
    let explicit = object(vec![
        ("phoneNumber", text("1")),
        ("type", sms(4)),
        ("nextType", Json::Null),
        ("timeout", Json::Int(3)),
    ]);
    let expected = AuthenticationCodeInfo {
        phone_number: "1".to_string(),
        type_: AuthenticationCodeType::AuthenticationCodeTypeSms(AuthenticationCodeTypeSms {
            length: 4,
        }),
        next_type: None,
        timeout: 3,
    };
    assert_eq!(AuthenticationCodeInfo::decode(&absent, ""), Ok(expected.clone()));
    assert_eq!(AuthenticationCodeInfo::decode(&explicit, ""), Ok(expected));
    assert_eq!(read_optional::<i32>(members(&absent), "nextType"), Ok(None));
    assert_eq!(read_optional::<i32>(members(&absent), "timeout"), Ok(Some(3)));
}

#[test]
fn an_absent_required_field_is_named() {
    let j = object(vec![("@type", text("error")), ("code", Json::Int(1))]);
    assert_eq!(Error::decode(&j, ""), Err(DecodeError::MissingField("message".to_string())));
    let j = object(vec![("message", text("x"))]);
    assert_eq!(Error::decode(&j, ""), Err(DecodeError::MissingField("code".to_string())));
    let j = object(vec![("type", sms(4)), ("timeout", Json::Int(3))]);
    assert_eq!(
        AuthenticationCodeInfo::decode(&j, ""),
        Err(DecodeError::MissingField("phoneNumber".to_string()))
    );
    assert_eq!(
        read_field::<bool>(members(&j), "flag"),
        Err(DecodeError::MissingField("flag".to_string()))
    );
}

#[test]
fn a_null_in_a_required_field_is_a_type_mismatch() {
    let j = object(vec![("code", Json::Null), ("message", text("x"))]);
    assert_eq!(Error::decode(&j, ""), Err(DecodeError::TypeMismatch("code".to_string())));
}

#[test]
fn a_field_of_the_wrong_shape_is_a_type_mismatch() {
    let j = object(vec![("code", text("1")), ("message", text("x"))]);
    assert_eq!(Error::decode(&j, ""), Err(DecodeError::TypeMismatch("code".to_string())));
    let j = object(vec![("code", Json::Int(1)), ("message", Json::Bool(true))]);
    assert_eq!(Error::decode(&j, ""), Err(DecodeError::TypeMismatch("message".to_string())));
    let j = object(vec![("code", Json::Int(2147483648)), ("message", text("x"))]);
    assert_eq!(Error::decode(&j, ""), Err(DecodeError::TypeMismatch("code".to_string())));
    let j = object(vec![("code", Json::Real(0x3ff8000000000000)), ("message", text("x"))]);
    assert_eq!(Error::decode(&j, ""), Err(DecodeError::TypeMismatch("code".to_string())));
    let j = object(vec![("value", Json::List(vec![Json::Int(1), text("2")]))]);
    assert_eq!(TestVectorInt::decode(&j, ""), Err(DecodeError::TypeMismatch("value".to_string())));
    let j = object(vec![("value", Json::Int(1))]);
    assert_eq!(TestVectorInt::decode(&j, ""), Err(DecodeError::TypeMismatch("value".to_string())));
    assert_eq!(
        Error::decode(&Json::List(Vec::new()), "reply"),
        Err(DecodeError::TypeMismatch("reply".to_string()))
    );
}

#[test]
fn the_first_faulty_field_in_declared_order_is_reported() {
    let j = object(vec![("message", Json::Int(1))]);
    assert_eq!(Error::decode(&j, ""), Err(DecodeError::MissingField("code".to_string())));
    let j = object(vec![("message", Json::Int(1)), ("code", Json::Int(1))]);
    assert_eq!(Error::decode(&j, ""), Err(DecodeError::TypeMismatch("message".to_string())));
}

#[test]
fn the_order_of_the_members_does_not_matter() {
    let a = object(vec![
        ("@type", text("error")),
        ("code", Json::Int(5)),
        ("message", text("five")),
    ]);
    let b = object(vec![
        ("message", text("five")),
        ("code", Json::Int(5)),
        ("@type", text("error")),
    ]);
    let expected = Error { code: 5, message: "five".to_string() };
    assert_eq!(Error::decode(&a, ""), Ok(expected.clone()));
    assert_eq!(Error::decode(&b, ""), Ok(expected.clone()));
    assert_eq!(decode_tagged::<Error>(&a), Ok(expected.clone()));
    assert_eq!(decode_tagged::<Error>(&b), Ok(expected));
    let late = object(vec![("length", Json::Int(6)), ("@type", text("authenticationCodeTypeSms"))]);
    assert_eq!(
        AuthenticationCodeType::decode(&late, ""),
        Ok(AuthenticationCodeType::AuthenticationCodeTypeSms(AuthenticationCodeTypeSms {
            length: 6
        }))
    );
}

#[test]
fn keys_that_a_type_does_not_declare_are_ignored() {
    let j = object(vec![
        ("code", Json::Int(5)),
        ("extra", Json::List(vec![Json::Null])),
        ("message", text("five")),
        ("@extra", text("request 17")),
    ]);
    assert_eq!(Error::decode(&j, ""), Ok(Error { code: 5, message: "five".to_string() }));
}

#[test]
fn the_last_of_two_equal_keys_counts() {
    let j = object(vec![
        ("code", Json::Int(1)),
        ("message", text("x")),
        ("code", Json::Int(2)),
    ]);
    assert_eq!(Error::decode(&j, ""), Ok(Error { code: 2, message: "x".to_string() }));
    assert_eq!(find(members(&j), "code"), Some(&Json::Int(2)));
}

#[test]
fn a_union_decodes_the_variant_that_the_discriminator_names() {
    assert_eq!(
        AuthenticationCodeType::decode(&sms(6), ""),
        Ok(AuthenticationCodeType::AuthenticationCodeTypeSms(AuthenticationCodeTypeSms {
            length: 6
        }))
    );
    let call = object(vec![("@type", text("authenticationCodeTypeCall")), ("length", Json::Int(6))]);
    assert_eq!(
        AuthenticationCodeType::decode(&call, ""),
        Ok(AuthenticationCodeType::AuthenticationCodeTypeCall(AuthenticationCodeTypeCall {
            length: 6
        }))
    );
    let v = AuthenticationCodeType::AuthenticationCodeTypeFlashCall(
        AuthenticationCodeTypeFlashCall { pattern: "p".to_string() },
    );
    assert_eq!(
        v.encode(),
        object(vec![("pattern", text("p")), ("@type", text("authenticationCodeTypeFlashCall"))])
    );
    assert_eq!(AuthenticationCodeType::decode(&v.encode(), ""), Ok(v));
}

#[test]
fn a_discriminator_outside_the_union_is_an_unknown_variant() {
    for tag in ["error", "authenticationCodeType", "AuthenticationCodeTypeSms", "", "chat"] {
        let j = object(vec![("@type", text(tag)), ("length", Json::Int(6))]);
        assert_eq!(
            AuthenticationCodeType::decode(&j, ""),
            Err(DecodeError::UnknownVariant(tag.to_string()))
        );
        assert!(!AuthenticationCodeType::knows(tag));
    }
    assert!(AuthenticationCodeType::knows("authenticationCodeTypeSms"));
    assert!(Error::knows("error"));
    assert!(!Error::knows("ok"));
}

#[test]
fn an_object_without_a_textual_discriminator_is_reported() {
    let j = object(vec![("length", Json::Int(6))]);
    assert_eq!(AuthenticationCodeType::decode(&j, ""), Err(DecodeError::MissingDiscriminator));
    let j = object(vec![("@type", Json::Int(1)), ("length", Json::Int(6))]);
    assert_eq!(AuthenticationCodeType::decode(&j, ""), Err(DecodeError::MissingDiscriminator));
    assert_eq!(
        AuthenticationCodeType::decode(&Json::Int(1), "type"),
        Err(DecodeError::TypeMismatch("type".to_string()))
    );
}

#[test]
fn a_fault_inside_a_nested_value_comes_out_unchanged() {
    let j = object(vec![
        ("phoneNumber", text("1")),
        ("type", object(vec![("@type", text("authenticationCodeTypeSms"))])),
        ("timeout", Json::Int(3)),
    ]);
    assert_eq!(
        AuthenticationCodeInfo::decode(&j, ""),
        Err(DecodeError::MissingField("length".to_string()))
    );
    let j = object(vec![
        ("phoneNumber", text("1")),
        ("type", object(vec![("@type", text("nothing"))])),
        ("timeout", Json::Int(3)),
    ]);
    assert_eq!(
        AuthenticationCodeInfo::decode(&j, ""),
        Err(DecodeError::UnknownVariant("nothing".to_string()))
    );
    let j = object(vec![("phoneNumber", text("1")), ("type", Json::Int(0)), ("timeout", Json::Int(3))]);
    assert_eq!(
        AuthenticationCodeInfo::decode(&j, ""),
        Err(DecodeError::TypeMismatch("type".to_string()))
    );
}

#[test]
fn a_message_is_decoded_by_its_discriminator() {
    let good = object(vec![("code", Json::Int(5)), ("message", text("m")), ("@type", text("error"))]);
    assert_eq!(decode_tagged::<Error>(&good), Ok(Error { code: 5, message: "m".to_string() }));
    let other = object(vec![("code", Json::Int(5)), ("message", text("m")), ("@type", text("ok"))]);
    assert_eq!(decode_tagged::<Error>(&other), Err(DecodeError::UnknownVariant("ok".to_string())));
    let bare = object(vec![("code", Json::Int(5)), ("message", text("m"))]);
    assert_eq!(decode_tagged::<Error>(&bare), Err(DecodeError::MissingDiscriminator));
    assert_eq!(
        decode_tagged::<Error>(&Json::Null),
        Err(DecodeError::TypeMismatch(String::new()))
    );
    assert_eq!(
        decode_tagged::<AuthenticationCodeType>(&sms(1)),
        Ok(AuthenticationCodeType::AuthenticationCodeTypeSms(AuthenticationCodeTypeSms {
            length: 1
        }))
    );
    assert_eq!(
        decode_tagged::<AuthenticationCodeType>(&good),
        Err(DecodeError::UnknownVariant("error".to_string()))
    );
}

fn sticker_set(id: Json) -> Json {
    object(vec![
        ("id", id),
        ("title", text("t")),
        ("name", text("n")),
        ("isInstalled", Json::Bool(true)),
        ("isArchived", Json::Bool(false)),
        ("isOfficial", Json::Bool(false)),
        ("isAnimated", Json::Bool(false)),
        ("isMasks", Json::Bool(false)),
        ("isViewed", Json::Bool(true)),
        ("size", Json::Int(0)),
        ("covers", Json::List(Vec::new())),
    ])
}

#[test]
fn a_wide_field_travels_as_decimal_text() {
    for n in [i64::MIN, -1, 0, 1, i64::MAX] {
        let set = StickerSetInfo {
            id: n,
            title: "t".to_string(),
            name: "n".to_string(),
            thumbnail: None,
            is_installed: true,
            is_archived: false,
            is_official: false,
            is_animated: false,
            is_masks: false,
            is_viewed: true,
            size: 0,
            covers: Vec::new(),
        };
        let j = set.encode();
        assert_eq!(find(members(&j), "id"), Some(&text(&n.to_string())));
        assert_eq!(find(members(&j), "size"), Some(&Json::Int(0)));
        assert_eq!(StickerSetInfo::decode(&j, ""), Ok(set.clone()));
        assert_eq!(StickerSetInfo::decode(&sticker_set(text(&n.to_string())), ""), Ok(set));
    }
}

#[test]
fn a_wide_field_rejects_what_is_not_a_64_bit_literal() {
    assert_eq!(
        StickerSetInfo::decode(&sticker_set(text("99999999999999999999")), ""),
        Err(DecodeError::NumericOverflow("id".to_string()))
    );
    assert_eq!(
        StickerSetInfo::decode(&sticker_set(text("12x")), ""),
        Err(DecodeError::ParseError("id".to_string()))
    );
    assert_eq!(
        StickerSetInfo::decode(&sticker_set(text("")), ""),
        Err(DecodeError::ParseError("id".to_string()))
    );
    assert_eq!(
        StickerSetInfo::decode(&sticker_set(Json::Int(12)), ""),
        Err(DecodeError::TypeMismatch("id".to_string()))
    );
    let j = object(vec![("title", text("t"))]);
    assert_eq!(read_wide(members(&j), "id"), Err(DecodeError::MissingField("id".to_string())));
    assert_eq!(read_wide(members(&sticker_set(text("+0012"))), "id"), Ok(12));
}

#[test]
fn a_number_with_a_fraction_keeps_its_bits() {
    let l = Location {
        latitude: Number::Real(48.8566f64.to_bits()),
        longitude: Number::Int(2),
    };
    let j = l.encode();
    assert_eq!(find(members(&j), "latitude"), Some(&Json::Real(48.8566f64.to_bits())));
    assert_eq!(find(members(&j), "longitude"), Some(&Json::Int(2)));
    assert_eq!(Location::decode(&j, ""), Ok(l));
    let j = object(vec![("latitude", text("48")), ("longitude", Json::Int(2))]);
    assert_eq!(Location::decode(&j, ""), Err(DecodeError::TypeMismatch("latitude".to_string())));
}

#[test]
fn clones_are_equal_to_their_originals() {
    let j = object(vec![
        ("a", Json::List(vec![Json::Null, Json::Bool(true), Json::Int(-3), Json::Real(7)])),
        ("b", object(vec![("c", text("d"))])),
    ]);
    assert_eq!(j.clone(), j);
    let e = DecodeError::UnknownVariant("x".to_string());
    assert_eq!(e.clone(), e);
}
