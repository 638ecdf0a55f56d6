use desmos_bindings::posts::{AnswerResult, PollTallyResults, PostAttachment, ProvidedAnswer};
use desmos_bindings::reports::ReportTarget;
use desmos_bindings::types::{count_pages, next_page, PageResponse};
use desmos_bindings::wire::{DecodeError, WireCodec, WireField, WireValue};

fn text(s: &str) -> WireValue {
    WireValue::Text(s.to_string())
}

fn entry(key: &str, value: WireValue) -> WireField {
    WireField { key: key.to_string(), value }
}

fn test_poll() -> PostAttachment {
    PostAttachment::Poll {
        question: "Test question?".to_string(),
        provided_answers: vec![
            ProvidedAnswer { text: Some("Answer 1".to_string()) },
            ProvidedAnswer { text: Some("Answer 2".to_string()) },
        ],
        end_date: "2140-01-01T10:00:20.021Z".to_string(),
        allows_multiple_answers: false,
        allows_answer_edits: false,
        final_tally_results: None,
    }
}

#[test]
fn poll_is_written_with_its_tag_and_decodes_back() {
    let wire = test_poll().encode();
    let expected = WireValue::Object(vec![
        entry("@type", text("/desmos.posts.v2.Poll")),
        entry("question", text("Test question?")),
        entry(
            "provided_answers",
            WireValue::List(vec![
                WireValue::Object(vec![entry("text", text("Answer 1"))]),
                WireValue::Object(vec![entry("text", text("Answer 2"))]),
            ]),
        ),
        entry("end_date", text("2140-01-01T10:00:20.021Z")),
        entry("allows_multiple_answers", WireValue::Bool(false)),
        entry("allows_answer_edits", WireValue::Bool(false)),
    ]);
    assert_eq!(wire, expected);
    let decoded = PostAttachment::decode(&wire).unwrap();
    assert_eq!(decoded, test_poll());
    match decoded {
        PostAttachment::Poll { final_tally_results, .. } => assert_eq!(final_tally_results, None),
        _ => panic!("not a poll"),
    }
}

#[test]
fn media_is_written_with_its_tag() {
    let media = PostAttachment::Media { mime_type: "image/png".to_string(), uri: "u".to_string() };
    let expected = WireValue::Object(vec![
        entry("@type", text("/desmos.posts.v2.Media")),
        entry("mime_type", text("image/png")),
        entry("uri", text("u")),
    ]);
    assert_eq!(media.encode(), expected);
}

#[test]
fn poll_with_tally_round_trips() {
    let poll = PostAttachment::Poll {
        question: "q".to_string(),
        provided_answers: vec![ProvidedAnswer { text: None }],
        end_date: "d".to_string(),
        allows_multiple_answers: true,
        allows_answer_edits: true,
        final_tally_results: Some(PollTallyResults {
            results: vec![
                AnswerResult { answer_index: 0, votes: 3 },
                AnswerResult { answer_index: 1, votes: u64::MAX },
            ],
        }),
    };
    let wire = poll.encode();
    match &wire {
        WireValue::Object(fs) => {
            assert_eq!(fs.len(), 7);
            assert_eq!(fs[6].key, "final_tally_results");
        }
        _ => panic!("not an object"),
    }
    assert_eq!(PostAttachment::decode(&wire), Ok(poll));
}

#[test]
fn targets_round_trip() {
    let user = ReportTarget::User { user: "desmos1abc".to_string() };
    let post = ReportTarget::Post { post_id: 42 };
    assert_eq!(
        user.encode(),
        WireValue::Object(vec![
            entry("@type", text("/desmos.reports.v1.UserTarget")),
            entry("user", text("desmos1abc")),
        ])
    );
    assert_eq!(
        post.encode(),
        WireValue::Object(vec![
            entry("@type", text("/desmos.reports.v1.PostTarget")),
            entry("post_id", WireValue::Quoted(42)),
        ])
    );
    assert_eq!(ReportTarget::decode(&user.encode()), Ok(user));
    assert_eq!(ReportTarget::decode(&post.encode()), Ok(post));
}

#[test]
fn unknown_tag_is_rejected() {
    let wire = WireValue::Object(vec![
        entry("@type", text("/desmos.posts.v3.Video")),
        entry("mime_type", text("video/mp4")),
        entry("uri", text("u")),
    ]);
    assert_eq!(PostAttachment::decode(&wire), Err(DecodeError::UnknownDiscriminator));
    let target = WireValue::Object(vec![
        entry("@type", text("/desmos.reports.v1.SubspaceTarget")),
        entry("user", text("a")),
    ]);
    assert_eq!(ReportTarget::decode(&target), Err(DecodeError::UnknownDiscriminator));
}

#[test]
fn fields_of_two_variants_are_ambiguous() {
    let wire = WireValue::Object(vec![
        entry("@type", text("/desmos.posts.v2.Media")),
        entry("mime_type", text("image/png")),
        entry("uri", text("u")),
        entry("question", text("q")),
    ]);
    assert_eq!(PostAttachment::decode(&wire), Err(DecodeError::AmbiguousPayload));
    let target = WireValue::Object(vec![
        entry("@type", text("/desmos.reports.v1.PostTarget")),
        entry("post_id", WireValue::Quoted(1)),
        entry("user", text("a")),
    ]);
    assert_eq!(ReportTarget::decode(&target), Err(DecodeError::AmbiguousPayload));
}

#[test]
fn missing_fields_are_reported() {
    let no_uri = WireValue::Object(vec![
        entry("@type", text("/desmos.posts.v2.Media")),
        entry("mime_type", text("image/png")),
    ]);
    assert_eq!(PostAttachment::decode(&no_uri), Err(DecodeError::MissingField));
    let no_tag = WireValue::Object(vec![entry("user", text("a"))]);
    assert_eq!(ReportTarget::decode(&no_tag), Err(DecodeError::MissingField));
}

#[test]
fn malformed_values_are_reported() {
    let textual_id = WireValue::Object(vec![
        entry("@type", text("/desmos.reports.v1.PostTarget")),
        entry("post_id", text("forty-two")),
    ]);
    assert_eq!(ReportTarget::decode(&textual_id), Err(DecodeError::MalformedValue));
    assert_eq!(PostAttachment::decode(&WireValue::Null), Err(DecodeError::MalformedValue));
    let big_index = WireValue::Object(vec![
        entry("answer_index", WireValue::Number(1u64 << 32)),
        entry("votes", WireValue::Quoted(1)),
    ]);
    assert_eq!(AnswerResult::decode(&big_index), Err(DecodeError::MalformedValue));
}

#[test]
fn page_response_round_trips() {
    let last = PageResponse { next_key: None, total: Some(2) };
    let more = PageResponse { next_key: Some(vec![1, 2, 3]), total: None };
    assert!(!last.has_next());
    assert!(more.has_next());
    assert_eq!(last.encode(), WireValue::Object(vec![entry("total", WireValue::Quoted(2))]));
    assert_eq!(PageResponse::decode(&last.encode()), Ok(last));
    assert_eq!(PageResponse::decode(&more.encode()), Ok(more));
}

#[test]
fn paging_ends() {
    assert_eq!(next_page(10, 0, 3), (3, Some(3)));
    assert_eq!(next_page(10, 9, 3), (10, None));
    assert_eq!(next_page(0, 0, 3), (0, None));
    assert_eq!(count_pages(10, 3), 4);
    assert_eq!(count_pages(9, 3), 3);
    assert_eq!(count_pages(0, 5), 1);
    assert_eq!(count_pages(5, 1), 5);
}

#[test]
fn a_second_type_tag_is_ambiguous() {
    let target = WireValue::Object(vec![
        entry("@type", text("/desmos.reports.v1.UserTarget")),
        entry("user", text("a")),
        entry("@type", text("/desmos.reports.v1.PostTarget")),
    ]);
    assert_eq!(ReportTarget::decode(&target), Err(DecodeError::AmbiguousPayload));
    let media = WireValue::Object(vec![
        entry("@type", text("/desmos.posts.v2.Media")),
        entry("@type", text("/desmos.posts.v2.Media")),
        entry("mime_type", text("image/png")),
        entry("uri", text("u")),
    ]);
    assert_eq!(PostAttachment::decode(&media), Err(DecodeError::AmbiguousPayload));
}

#[test]
fn decimal_texts_are_read_as_integers() {
    let post = |id: &str| {
        WireValue::Object(vec![
            entry("@type", text("/desmos.reports.v1.PostTarget")),
            entry("post_id", text(id)),
        ])
    };
    assert_eq!(ReportTarget::decode(&post("42")), Ok(ReportTarget::Post { post_id: 42 }));
    assert_eq!(
        ReportTarget::decode(&post("18446744073709551615")),
        Ok(ReportTarget::Post { post_id: u64::MAX })
    );
    assert_eq!(ReportTarget::decode(&post("18446744073709551616")), Err(DecodeError::MalformedValue));
    assert_eq!(ReportTarget::decode(&post("")), Err(DecodeError::MalformedValue));
    assert_eq!(ReportTarget::decode(&post("4x2")), Err(DecodeError::MalformedValue));
}

#[test]
fn page_response_texts_are_read() {
    let wire = WireValue::Object(vec![entry("next_key", text("AQID")), entry("total", text("7"))]);
    assert_eq!(
        PageResponse::decode(&wire),
        Ok(PageResponse { next_key: Some(vec![1, 2, 3]), total: Some(7) })
    );
    let bad = WireValue::Object(vec![entry("next_key", text("!!"))]);
    assert_eq!(PageResponse::decode(&bad), Err(DecodeError::MalformedValue));
}
