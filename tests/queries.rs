use desmos_bindings::relationships::RelationshipsQuery;
use desmos_bindings::reports::{
    mock_reports_query_response, QueryReportResponse, QueryReportsResponse, ReportTarget,
    ReportsQuery,
};
use desmos_bindings::subspaces::SubspacesQuery;
use desmos_bindings::types::PageRequest;
use desmos_bindings::wire::{DecodeError, WireField, WireValue};

fn entry(key: &str, value: WireValue) -> WireField {
    WireField { key: key.to_string(), value }
}

fn text(s: &str) -> WireValue {
    WireValue::Text(s.to_string())
}

fn body(w: &WireValue) -> (&str, &Vec<WireField>) {
    match w {
        WireValue::Object(outer) => {
            assert_eq!(outer.len(), 1);
            match &outer[0].value {
                WireValue::Object(fs) => (outer[0].key.as_str(), fs),
                _ => panic!("query body is not an object"),
            }
        }
        _ => panic!("query is not an object"),
    }
}

#[test]
fn relationships_query_leaves_unset_fields_out() {
    let q = RelationshipsQuery::Relationships {
        user: Some("a".to_string()),
        counterparty: None,
        subspace_id: 1,
        pagination: None,
    };
    let w = q.encode();
    let (name, fs) = body(&w);
    assert_eq!(name, "relationships");
    assert_eq!(*fs, vec![entry("user", text("a")), entry("subspace_id", WireValue::Quoted(1))]);
}

#[test]
fn page_request_is_written_in_order() {
    let q = RelationshipsQuery::Blocks {
        blocker: None,
        blocked: Some("b".to_string()),
        subspace_id: 2,
        pagination: Some(PageRequest {
            key: Some(vec![7]),
            limit: 10,
            offset: None,
            count_total: true,
            reverse: false,
        }),
    };
    let w = q.encode();
    let (name, fs) = body(&w);
    assert_eq!(name, "blocks");
    assert_eq!(fs[0], entry("blocked", text("b")));
    assert_eq!(fs[1], entry("subspace_id", WireValue::Quoted(2)));
    assert_eq!(
        fs[2],
        entry(
            "pagination",
            WireValue::Object(vec![
                entry("key", WireValue::Bytes(vec![7])),
                entry("limit", WireValue::Quoted(10)),
                entry("count_total", WireValue::Bool(true)),
                entry("reverse", WireValue::Bool(false)),
            ])
        )
    );
}

#[test]
fn reports_query_writes_its_target() {
    let q = ReportsQuery::Reports {
        subspace_id: 1,
        target: Some(ReportTarget::Post { post_id: 42 }),
        reporter: None,
        pagination: None,
    };
    let w = q.encode();
    let (name, fs) = body(&w);
    assert_eq!(name, "reports");
    assert_eq!(fs.len(), 2);
    assert_eq!(fs[1].key, "target");
    assert_eq!(
        fs[1].value,
        WireValue::Object(vec![
            entry("@type", text("/desmos.reports.v1.PostTarget")),
            entry("post_id", WireValue::Quoted(42)),
        ])
    );
    let w = ReportsQuery::Reason { subspace_id: 3, reason_id: 4 }.encode();
    let (name, fs) = body(&w);
    assert_eq!(name, "reason");
    assert_eq!(
        *fs,
        vec![entry("subspace_id", WireValue::Quoted(3)), entry("reason_id", WireValue::Number(4))]
    );
}

#[test]
fn subspaces_queries_are_named_in_snake_case() {
    let w = SubspacesQuery::UserGroups { subspace_id: 1, section_id: None, pagination: None }
        .encode();
    let (name, fs) = body(&w);
    assert_eq!(name, "user_groups");
    assert_eq!(*fs, vec![entry("subspace_id", WireValue::Quoted(1))]);
    let w = SubspacesQuery::UserPermissions {
        subspace_id: 1,
        section_id: Some(5),
        user: "u".to_string(),
    }
    .encode();
    let (name, fs) = body(&w);
    assert_eq!(name, "user_permissions");
    assert_eq!(
        *fs,
        vec![
            entry("subspace_id", WireValue::Quoted(1)),
            entry("section_id", WireValue::Number(5)),
            entry("user", text("u")),
        ]
    );
    let w = SubspacesQuery::Subspaces { pagination: None }.encode();
    assert_eq!(body(&w), ("subspaces", &vec![]));
}

/// The target field of the report at `i` of a reports answer.
fn target_of_report(w: &mut WireValue, i: usize) -> &mut Vec<WireField> {
    let list = match w {
        WireValue::Object(fs) => &mut fs[0].value,
        _ => panic!("not an object"),
    };
    let report = match list {
        WireValue::List(items) => &mut items[i],
        _ => panic!("not a list"),
    };
    let fields = match report {
        WireValue::Object(fs) => fs,
        _ => panic!("not an object"),
    };
    let target = fields.iter_mut().find(|f| f.key == "target").unwrap();
    match &mut target.value {
        WireValue::Object(fs) => fs,
        _ => panic!("not an object"),
    }
}

#[test]
fn unknown_target_tag_rejects_the_whole_response() {
    let q = ReportsQuery::Reports { subspace_id: 1, target: None, reporter: None, pagination: None };
    let mut w = mock_reports_query_response(&q);
    assert!(QueryReportsResponse::decode(&w).is_ok());
    target_of_report(&mut w, 1)[0].value = text("/desmos.reports.v1.SubspaceTarget");
    assert_eq!(QueryReportsResponse::decode(&w), Err(DecodeError::UnknownDiscriminator));
}

#[test]
fn target_with_both_shapes_rejects_the_response() {
    let q = ReportsQuery::Report { subspace_id: 1, report_id: 0 };
    let ok = QueryReportResponse::decode(&mock_reports_query_response(&q)).unwrap();
    assert_eq!(
        ok.report.target,
        ReportTarget::User { user: "desmos1nwp8gxrnmrsrzjdhvk47vvmthzxjtphgxp5ftc".to_string() }
    );
    let mut w = mock_reports_query_response(&q);
    let report = match &mut w {
        WireValue::Object(fs) => match &mut fs[0].value {
            WireValue::Object(rf) => rf,
            _ => panic!("not an object"),
        },
        _ => panic!("not an object"),
    };
    let target = report.iter_mut().find(|f| f.key == "target").unwrap();
    match &mut target.value {
        WireValue::Object(fs) => fs.push(entry("post_id", WireValue::Quoted(42))),
        _ => panic!("not an object"),
    }
    assert_eq!(QueryReportResponse::decode(&w), Err(DecodeError::AmbiguousPayload));
}
