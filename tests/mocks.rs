use desmos_bindings::relationships::{
    decode_relationships_response, mock_relationships_query_response, RelationshipsResponse, MockRelationshipsQueries, QueryBlocksResponse,
    QueryRelationshipsResponse, RelationshipsQuery,
};
use desmos_bindings::reports::{
    decode_reports_response, mock_reports_query_response, ReportsResponse, MockReportsQueries, QueryReasonResponse, QueryReasonsResponse,
    QueryReportResponse, QueryReportsResponse, ReportTarget, ReportsQuery,
};
use desmos_bindings::types::PageRequest;
use desmos_bindings::wire::{DecodeError, WireCodec, WireValue};

#[test]
fn test_query_relationships() {
    let query = RelationshipsQuery::Relationships {
        user: Some("".to_string()),
        counterparty: Some("".to_string()),
        subspace_id: 1,
        pagination: None,
    };
    let response = mock_relationships_query_response(&query);
    let expected = QueryRelationshipsResponse {
        relationships: vec![MockRelationshipsQueries::get_mock_relationship()],
        pagination: None,
    }
    .encode();
    assert_eq!(response, expected)
}

#[test]
fn test_query_blocks() {
    let query = RelationshipsQuery::Blocks {
        blocker: Some("".to_string()),
        blocked: Some("".to_string()),
        subspace_id: 1,
        pagination: None,
    };
    let response = mock_relationships_query_response(&query);
    let expected = QueryBlocksResponse {
        blocks: vec![MockRelationshipsQueries::get_mock_user_block()],
        pagination: None,
    }
    .encode();
    assert_eq!(response, expected)
}

#[test]
fn relationships_response_decodes_to_fixture() {
    let query = RelationshipsQuery::Relationships {
        user: None,
        counterparty: None,
        subspace_id: 7,
        pagination: Some(PageRequest {
            key: None,
            limit: 10,
            offset: None,
            count_total: false,
            reverse: false,
        }),
    };
    let decoded = QueryRelationshipsResponse::decode(&mock_relationships_query_response(&query))
        .unwrap();
    assert_eq!(decoded.relationships, vec![MockRelationshipsQueries::get_mock_relationship()]);
    assert_eq!(decoded.pagination, None);
    let r = &decoded.relationships[0];
    assert_eq!(r.creator, "desmos1nwp8gxrnmrsrzjdhvk47vvmthzxjtphgxp5ftc");
    assert_eq!(r.counterparty, "desmos1rfv0f7mx7w9d3jv3h803u38vqym9ygg344asm3");
    assert_eq!(r.subspace_id, 1);
}

#[test]
fn blocks_response_decodes_to_fixture() {
    let query = RelationshipsQuery::Blocks {
        blocker: None,
        blocked: None,
        subspace_id: 1,
        pagination: None,
    };
    let decoded = QueryBlocksResponse::decode(&mock_relationships_query_response(&query)).unwrap();
    assert_eq!(decoded.blocks.len(), 1);
    assert_eq!(decoded.blocks[0].reason, "test");
    assert_eq!(decoded.blocks[0], MockRelationshipsQueries::get_mock_user_block());
}

#[test]
fn reports_response_holds_a_user_and_a_post_target() {
    let query = ReportsQuery::Reports {
        subspace_id: 1,
        target: None,
        reporter: None,
        pagination: None,
    };
    let wire = mock_reports_query_response(&query);
    let decoded = QueryReportsResponse::decode(&wire).unwrap();
    assert_eq!(decoded.reports.len(), 2);
    assert_eq!(
        decoded.reports[0].target,
        ReportTarget::User { user: "desmos1nwp8gxrnmrsrzjdhvk47vvmthzxjtphgxp5ftc".to_string() }
    );
    assert_eq!(decoded.reports[1].target, ReportTarget::Post { post_id: 42 });
    assert_eq!(decoded.reports[0].reasons_ids, vec![0, 2]);
    assert_eq!(decoded.reports[1].message, Some("Report text".to_string()));
    assert_eq!(decoded.reports[0].subspace_id, 1);
    assert_eq!(decoded.reports, MockReportsQueries::get_mocked_reports(1));
    assert_eq!(decoded.pagination, None);
}

#[test]
fn report_response_decodes_to_fixture() {
    let query = ReportsQuery::Report { subspace_id: 5, report_id: 0 };
    let decoded = QueryReportResponse::decode(&mock_reports_query_response(&query)).unwrap();
    assert_eq!(decoded.report, MockReportsQueries::get_mocked_report(5));
    assert_eq!(decoded.report.subspace_id, 5);
}

#[test]
fn reasons_response_decodes_to_fixture() {
    let query = ReportsQuery::Reasons { subspace_id: 3, pagination: None };
    let decoded = QueryReasonsResponse::decode(&mock_reports_query_response(&query)).unwrap();
    assert_eq!(decoded.reasons, MockReportsQueries::get_mocked_reasons(3));
    assert_eq!(decoded.reasons[1].description, Some("Reason description".to_string()));
    assert_eq!(decoded.reasons[0].description, None);
}

#[test]
fn reason_response_decodes_to_fixture() {
    let query = ReportsQuery::Reason { subspace_id: 3, reason_id: 1 };
    let decoded = QueryReasonResponse::decode(&mock_reports_query_response(&query)).unwrap();
    assert_eq!(decoded.reason, MockReportsQueries::get_mocked_reason(3));
    assert_eq!(decoded.reason.title, "Mock reason 1");
}

#[test]
fn report_target_is_written_with_its_tag() {
    let query = ReportsQuery::Report { subspace_id: 1, report_id: 0 };
    let wire = mock_reports_query_response(&query);
    let report = match &wire {
        WireValue::Object(fs) => &fs[0].value,
        _ => panic!("not an object"),
    };
    let target = match report {
        WireValue::Object(fs) => fs.iter().find(|f| f.key == "target").unwrap(),
        _ => panic!("not an object"),
    };
    match &target.value {
        WireValue::Object(fs) => {
            assert_eq!(fs[0].key, "@type");
            assert_eq!(fs[0].value, WireValue::Text("/desmos.reports.v1.UserTarget".to_string()));
        }
        _ => panic!("not an object"),
    }
}

#[test]
fn fixture_reports_have_distinct_ids() {
    let reports = MockReportsQueries::get_mocked_reports(1);
    assert_eq!(reports[0].id, 0);
    assert_eq!(reports[1].id, 1);
    assert_eq!(MockReportsQueries::get_mocked_report(1).id, 0);
    assert_eq!(MockReportsQueries::get_mocked_report(1), reports[0]);
}

#[test]
fn responses_are_read_as_the_query_type() {
    let reports = ReportsQuery::Reports { subspace_id: 1, target: None, reporter: None, pagination: None };
    let wire = mock_reports_query_response(&reports);
    match decode_reports_response(&reports, &wire) {
        Ok(ReportsResponse::Reports(r)) => assert_eq!(r.reports.len(), 2),
        other => panic!("unexpected {:?}", other),
    }
    let one = ReportsQuery::Report { subspace_id: 1, report_id: 1 };
    assert_eq!(decode_reports_response(&one, &wire), Err(DecodeError::MissingField));
    let blocks = RelationshipsQuery::Blocks { blocker: None, blocked: None, subspace_id: 1, pagination: None };
    match decode_relationships_response(&blocks, &mock_relationships_query_response(&blocks)) {
        Ok(RelationshipsResponse::Blocks(b)) => assert_eq!(b.blocks.len(), 1),
        other => panic!("unexpected {:?}", other),
    }
}
