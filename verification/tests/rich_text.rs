use tdlib_types::codec::{find, Wire};
use tdlib_types::error::DecodeError;
use tdlib_types::json::{Json, Member};
use tdlib_types::types::{
    JsonObjectMember, JsonValue, JsonValueArray, JsonValueBoolean, JsonValueNull, JsonValueObject,
    JsonValueString, PageBlock, PageBlockCover, PageBlockDetails, PageBlockDivider, PageBlockList,
    PageBlockListItem, PageBlockTitle, RichText, RichTextBold, RichTextItalic, RichTextPlain,
    RichTextUrl, RichTexts,
};

fn text(s: &str) -> Json {
    Json::Text(s.to_string())
}

fn object(members: Vec<(&str, Json)>) -> Json {
    Json::Object(
        members.into_iter().map(|(key, value)| Member { key: key.to_string(), value }).collect(),
    )
}

fn plain(s: &str) -> RichText {
    RichText::RichTextPlain(RichTextPlain { text: s.to_string() })
}

fn bold(inner: RichText) -> RichText {
    RichText::RichTextBold(RichTextBold { text: Box::new(inner) })
}

fn italic(inner: RichText) -> RichText {
    RichText::RichTextItalic(RichTextItalic { text: Box::new(inner) })
}

fn depth(t: &RichText) -> usize {
    match t {
        RichText::RichTextBold(b) => 1 + depth(&b.text),
        RichText::RichTextItalic(i) => 1 + depth(&i.text),
        _ => 1,
    }
}

#[test]
fn three_levels_of_rich_text_keep_their_nesting_and_their_leaf() {
    let value = bold(italic(plain("hi")));
    let wire = object(vec![
        (
            "text",
            object(vec![
                ("text", object(vec![("text", text("hi")), ("@type", text("richTextPlain"))])),
                ("@type", text("richTextItalic")),
            ]),
        ),
        ("@type", text("richTextBold")),
    ]);
    assert_eq!(value.encode(), wire);
    let back = RichText::decode(&wire, "").unwrap();
    assert_eq!(back, value);
    assert_eq!(depth(&back), 3);
    match back {
        RichText::RichTextBold(b) => match *b.text {
            RichText::RichTextItalic(i) => match *i.text {
                RichText::RichTextPlain(p) => assert_eq!(p.text, "hi"),
                other => panic!("{:?}", other),
            },
            other => panic!("{:?}", other),
        },
        other => panic!("{:?}", other),
    }
}

#[test]
fn a_variant_struct_and_its_union_write_the_same_document() {
    let inner = RichTextBold { text: Box::new(plain("x")) };
    assert_eq!(inner.encode(), RichText::RichTextBold(inner.clone()).encode());
    assert_eq!(RichTextBold::decode(&inner.encode(), ""), Ok(inner.clone()));
    assert_eq!(RichText::decode(&inner.encode(), ""), Ok(RichText::RichTextBold(inner)));
}

#[test]
fn lists_of_rich_text_round_trip() {
    let value = RichText::RichTexts(RichTexts {
        texts: vec![
            plain("a"),
            bold(plain("b")),
            RichText::RichTexts(RichTexts { texts: Vec::new() }),
            RichText::RichTextUrl(RichTextUrl {
                text: Box::new(italic(plain("c"))),
                url: "https://example.org".to_string(),
                is_cached: true,
            }),
        ],
    });
    assert_eq!(RichText::decode(&value.encode(), ""), Ok(value.clone()));
    assert_eq!(value.clone(), value);
}

#[test]
fn faults_deep_inside_rich_text_are_reported() {
    let wire = object(vec![
        ("text", object(vec![("@type", text("richTextItalic"))])),
        ("@type", text("richTextBold")),
    ]);
    assert_eq!(RichText::decode(&wire, ""), Err(DecodeError::MissingField("text".to_string())));
    let wire = object(vec![
        ("text", object(vec![("@type", text("richTextBlink")), ("text", text("x"))])),
        ("@type", text("richTextBold")),
    ]);
    assert_eq!(
        RichText::decode(&wire, ""),
        Err(DecodeError::UnknownVariant("richTextBlink".to_string()))
    );
    let wire = object(vec![("text", text("bare")), ("@type", text("richTextBold"))]);
    assert_eq!(RichText::decode(&wire, ""), Err(DecodeError::TypeMismatch("text".to_string())));
    let wire = object(vec![
        ("texts", Json::List(vec![object(vec![("@type", text("richTextPlain"))])])),
        ("@type", text("richTexts")),
    ]);
    assert_eq!(RichText::decode(&wire, ""), Err(DecodeError::MissingField("text".to_string())));
    let wire = object(vec![("texts", Json::Null), ("@type", text("richTexts"))]);
    assert_eq!(RichText::decode(&wire, ""), Err(DecodeError::TypeMismatch("texts".to_string())));
}

#[test]
fn page_blocks_nest_through_lists_and_boxes() {
    let title = PageBlock::PageBlockTitle(PageBlockTitle { title: plain("t") });
    let value = PageBlock::PageBlockDetails(PageBlockDetails {
        header: bold(plain("h")),
        page_blocks: vec![
            PageBlock::PageBlockCover(PageBlockCover { cover: Box::new(title.clone()) }),
            PageBlock::PageBlockList(PageBlockList {
                items: vec![PageBlockListItem {
                    label: "1.".to_string(),
                    page_blocks: vec![PageBlock::PageBlockDivider(PageBlockDivider {}), title],
                }],
            }),
        ],
        is_open: true,
    });
    let wire = value.encode();
    assert_eq!(PageBlock::decode(&wire, ""), Ok(value.clone()));
    assert_eq!(value.clone(), value);
    let members = match &wire {
        Json::Object(m) => m,
        _ => panic!("not an object"),
    };
    assert_eq!(find(members, "@type"), Some(&text("pageBlockDetails")));
    assert_eq!(find(members, "isOpen"), Some(&Json::Bool(true)));
    match find(members, "pageBlocks") {
        Some(Json::List(items)) => assert_eq!(items.len(), 2),
        other => panic!("{:?}", other),
    }
}

#[test]
fn json_values_of_the_protocol_round_trip() {
    let value = JsonValue::JsonValueObject(JsonValueObject {
        members: vec![
            JsonObjectMember {
                key: "list".to_string(),
                value: JsonValue::JsonValueArray(JsonValueArray {
                    values: vec![
                        JsonValue::JsonValueNull(JsonValueNull {}),
                        JsonValue::JsonValueBoolean(JsonValueBoolean { value: true }),
                        JsonValue::JsonValueString(JsonValueString { value: "s".to_string() }),
                    ],
                }),
            },
            JsonObjectMember {
                key: "empty".to_string(),
                value: JsonValue::JsonValueObject(JsonValueObject { members: Vec::new() }),
            },
        ],
    });
    assert_eq!(JsonValue::decode(&value.encode(), ""), Ok(value.clone()));
    assert_eq!(value.clone(), value);
}
