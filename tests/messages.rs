use desmos_bindings::entities::{Entities, PostReference, PostReferenceType, TextTag, Url};
use desmos_bindings::posts::{PostAttachment, ProvidedAnswer};
use desmos_bindings::posts_msg::{PostsMsg, ReplySetting};
use desmos_bindings::wire::{DecodeError, WireCodec, WireField, WireValue};

const TEST_SUBSPACE: u64 = 1;
const TEST_SUBSPACE_EDITABLE_POST_ID: u64 = 1;
const TEST_SUBSPACE_DELETABLE_POST_ID: u64 = 2;
const TEST_DELETABLE_ATTACHMENT_ID: u32 = 1;
const TEST_POLL_ID: u32 = 2;
const CONTRACT: &str = "desmos14hj2tavq8fpesdwxxcu44rty3hh90vhujrvcmstl4zr3txmfvw9s4hmalr";

fn entry(key: &str, value: WireValue) -> WireField {
    WireField { key: key.to_string(), value }
}

/// The message name and the fields of an encoded message.
fn unwrap_msg(w: &WireValue) -> (&str, &Vec<WireField>) {
    match w {
        WireValue::Object(outer) => {
            assert_eq!(outer.len(), 1);
            match &outer[0].value {
                WireValue::Object(fs) => (outer[0].key.as_str(), fs),
                _ => panic!("message body is not an object"),
            }
        }
        _ => panic!("message is not an object"),
    }
}

#[test]
fn test_create_post() {
    let msg = PostsMsg::CreatePost {
        subspace_id: TEST_SUBSPACE,
        section_id: 0,
        external_id: None,
        text: Some("Post text".to_string()),
        entities: None,
        attachments: None,
        author: CONTRACT.to_string(),
        conversation_id: None,
        reply_settings: ReplySetting::Everyone,
        referenced_posts: vec![],
    };
    let w = msg.encode();
    let (name, fs) = unwrap_msg(&w);
    assert_eq!(name, "create_post");
    assert_eq!(
        *fs,
        vec![
            entry("subspace_id", WireValue::Quoted(1)),
            entry("section_id", WireValue::Number(0)),
            entry("text", WireValue::Text("Post text".to_string())),
            entry("author", WireValue::Text(CONTRACT.to_string())),
            entry("reply_settings", WireValue::Text("REPLY_SETTING_EVERYONE".to_string())),
            entry("referenced_posts", WireValue::List(vec![])),
        ]
    );
}

#[test]
fn create_post_writes_every_set_field_in_order() {
    let media = PostAttachment::Media { mime_type: "m".to_string(), uri: "u".to_string() };
    let expected_media = media.encode();
    let msg = PostsMsg::CreatePost {
        subspace_id: 3,
        section_id: 4,
        external_id: Some("ext".to_string()),
        text: Some("hello".to_string()),
        entities: Some(Entities {
            hashtags: vec![TextTag { start: 0, end: 3, tag: "tag".to_string() }],
            mentions: vec![],
            urls: vec![Url {
                start: 4,
                end: 9,
                url: "https://a.b".to_string(),
                display_url: "a.b".to_string(),
            }],
        }),
        attachments: Some(vec![media]),
        author: "a".to_string(),
        conversation_id: Some(9),
        reply_settings: ReplySetting::Mutual,
        referenced_posts: vec![PostReference {
            reference_type: PostReferenceType::Quote,
            post_id: 5,
            position: 0,
        }],
    };
    let w = msg.encode();
    let (_, fs) = unwrap_msg(&w);
    let keys: Vec<&str> = fs.iter().map(|f| f.key.as_str()).collect();
    assert_eq!(
        keys,
        vec![
            "subspace_id",
            "section_id",
            "external_id",
            "text",
            "entities",
            "attachments",
            "author",
            "conversation_id",
            "reply_settings",
            "referenced_posts"
        ]
    );
    assert_eq!(
        fs[4].value,
        WireValue::Object(vec![
            entry(
                "hashtags",
                WireValue::List(vec![WireValue::Object(vec![
                    entry("start", WireValue::Quoted(0)),
                    entry("end", WireValue::Quoted(3)),
                    entry("tag", WireValue::Text("tag".to_string())),
                ])])
            ),
            entry("mentions", WireValue::List(vec![])),
            entry(
                "urls",
                WireValue::List(vec![WireValue::Object(vec![
                    entry("start", WireValue::Quoted(4)),
                    entry("end", WireValue::Quoted(9)),
                    entry("url", WireValue::Text("https://a.b".to_string())),
                    entry("display_url", WireValue::Text("a.b".to_string())),
                ])])
            ),
        ])
    );
    assert_eq!(fs[5].value, WireValue::List(vec![expected_media]));
    assert_eq!(fs[7].value, WireValue::Quoted(9));
    assert_eq!(fs[8].value, WireValue::Text("REPLY_SETTING_MUTUAL".to_string()));
    assert_eq!(
        fs[9].value,
        WireValue::List(vec![WireValue::Object(vec![
            entry("type", WireValue::Text("POST_REFERENCE_TYPE_QUOTE".to_string())),
            entry("post_id", WireValue::Quoted(5)),
            entry("position", WireValue::Quoted(0)),
        ])])
    );
}

#[test]
fn test_edit_post() {
    let msg = PostsMsg::EditPost {
        subspace_id: TEST_SUBSPACE,
        post_id: TEST_SUBSPACE_EDITABLE_POST_ID,
        text: "[do-not-modify]".to_string(),
        entities: None,
        editor: CONTRACT.to_string(),
    };
    let w = msg.encode();
    let (name, fs) = unwrap_msg(&w);
    assert_eq!(name, "edit_post");
    assert_eq!(
        *fs,
        vec![
            entry("subspace_id", WireValue::Quoted(1)),
            entry("post_id", WireValue::Quoted(1)),
            entry("text", WireValue::Text("[do-not-modify]".to_string())),
            entry("editor", WireValue::Text(CONTRACT.to_string())),
        ]
    );
}

#[test]
fn test_delete_post() {
    let msg = PostsMsg::DeletePost {
        subspace_id: TEST_SUBSPACE,
        post_id: TEST_SUBSPACE_DELETABLE_POST_ID,
        signer: CONTRACT.to_string(),
    };
    let w = msg.encode();
    let (name, fs) = unwrap_msg(&w);
    assert_eq!(name, "delete_post");
    assert_eq!(fs.len(), 3);
    assert_eq!(fs[1], entry("post_id", WireValue::Quoted(2)));
    assert_eq!(fs[2], entry("signer", WireValue::Text(CONTRACT.to_string())));
}

#[test]
fn test_add_media_post_attachment() {
    let media = PostAttachment::Media {
        mime_type: "test-mime".to_string(),
        uri: "https://test.com/image.png".to_string(),
    };
    let poll = PostAttachment::Poll {
        question: "Test question?".to_string(),
        provided_answers: vec![
            ProvidedAnswer { text: Some("Answer 1".to_string()) },
            ProvidedAnswer { text: Some("Answer 2".to_string()) },
        ],
        end_date: "2140-01-01T10:00:20.021Z".to_string(),
        allows_multiple_answers: false,
        allows_answer_edits: false,
        final_tally_results: None,
    };
    for content in [media, poll] {
        let expected = content.encode();
        let msg = PostsMsg::AddPostAttachment {
            subspace_id: TEST_SUBSPACE,
            post_id: TEST_SUBSPACE_EDITABLE_POST_ID,
            content,
            editor: CONTRACT.to_string(),
        };
        let w = msg.encode();
        let (name, fs) = unwrap_msg(&w);
        assert_eq!(name, "add_post_attachment");
        assert_eq!(fs[2].key, "content");
        assert_eq!(fs[2].value, expected);
        let decoded = PostAttachment::decode(&fs[2].value).unwrap();
        match msg {
            PostsMsg::AddPostAttachment { content, .. } => assert_eq!(decoded, content),
            _ => unreachable!(),
        }
    }
}

#[test]
fn test_remove_post_attachment() {
    let msg = PostsMsg::RemovePostAttachment {
        subspace_id: TEST_SUBSPACE,
        post_id: TEST_SUBSPACE_EDITABLE_POST_ID,
        attachment_id: TEST_DELETABLE_ATTACHMENT_ID,
        editor: CONTRACT.to_string(),
    };
    let w = msg.encode();
    let (name, fs) = unwrap_msg(&w);
    assert_eq!(name, "remove_post_attachment");
    assert_eq!(fs[2], entry("attachment_id", WireValue::Number(1)));
}

#[test]
fn test_answer_poll() {
    let msg = PostsMsg::AnswerPoll {
        subspace_id: TEST_SUBSPACE,
        post_id: TEST_SUBSPACE_EDITABLE_POST_ID,
        poll_id: TEST_POLL_ID,
        answers_indexes: vec![0],
        signer: CONTRACT.to_string(),
    };
    let w = msg.encode();
    let (name, fs) = unwrap_msg(&w);
    assert_eq!(name, "answer_poll");
    assert_eq!(fs[2], entry("poll_id", WireValue::Number(2)));
    assert_eq!(fs[3], entry("answers_indexes", WireValue::List(vec![WireValue::Number(0)])));
}

#[test]
fn reply_settings_round_trip() {
    for r in [
        ReplySetting::Unspecified,
        ReplySetting::Everyone,
        ReplySetting::Followers,
        ReplySetting::Mutual,
        ReplySetting::Mentions,
    ] {
        assert_eq!(ReplySetting::decode(&r.encode()), Ok(r));
    }
    assert_eq!(
        ReplySetting::Mentions.encode(),
        WireValue::Text("REPLY_SETTING_MENTIONS".to_string())
    );
    assert_eq!(
        ReplySetting::decode(&WireValue::Text("REPLY_SETTING_NOBODY".to_string())),
        Err(DecodeError::UnknownDiscriminator)
    );
    assert_eq!(ReplySetting::decode(&WireValue::Bool(true)), Err(DecodeError::MalformedValue));
}

#[test]
fn references_and_tags_round_trip() {
    let r = PostReference { reference_type: PostReferenceType::Repost, post_id: 7, position: 2 };
    let w = r.encode();
    assert_eq!(PostReference::decode(&w), Ok(r));
    let t = TextTag { start: 1, end: 2, tag: "x".to_string() };
    assert_eq!(TextTag::decode(&t.encode()), Ok(t));
    let bad = WireValue::Object(vec![
        entry("type", WireValue::Text("POST_REFERENCE_TYPE_LINK".to_string())),
        entry("post_id", WireValue::Quoted(1)),
        entry("position", WireValue::Quoted(0)),
    ]);
    assert_eq!(PostReference::decode(&bad), Err(DecodeError::UnknownDiscriminator));
}

#[test]
fn edit_post_writes_entities_when_set() {
    let msg = PostsMsg::EditPost {
        subspace_id: 1,
        post_id: 2,
        text: "t".to_string(),
        entities: Some(Entities { hashtags: vec![], mentions: vec![], urls: vec![] }),
        editor: "e".to_string(),
    };
    let w = msg.encode();
    let (_, fs) = unwrap_msg(&w);
    let keys: Vec<&str> = fs.iter().map(|f| f.key.as_str()).collect();
    assert_eq!(keys, vec!["subspace_id", "post_id", "text", "entities", "editor"]);
}
