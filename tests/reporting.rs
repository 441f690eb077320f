use jsonb_bench::error::BenchError;
use jsonb_bench::report::{search_outcome, EngineReport, LatencyEntry, QueryOutcome, SearchReply};
use jsonb_bench::schema::{
    check_index_created, copy_statement, index_step, relational_schema, search_index_mapping,
    search_index_name, IndexStep, ObjectKind,
};

#[test]
fn average_excludes_failed_queries() {
    let mut r = EngineReport::new();
    r.record("a".to_string(), QueryOutcome::Measured { rows: 10, elapsed_nanos: 3_000 });
    r.record("b".to_string(), QueryOutcome::Failed("status 400".to_string()));
    r.record("c".to_string(), QueryOutcome::Measured { rows: 0, elapsed_nanos: 2_000 });
    assert_eq!(r.measured_count(), 2);
    assert_eq!(r.total_rows(), 10);
    assert_eq!(r.total_elapsed_nanos(), 5_000);
    assert_eq!(r.average_latency_nanos(), 2_500);
    assert_eq!(r.skipped_queries(), &vec!["b".to_string()]);
    assert_eq!(
        r.measurements()[1],
        LatencyEntry { description: "c".to_string(), row_count: 0, elapsed_nanos: 2_000 }
    );
}

#[test]
fn empty_report_averages_zero() {
    let r = EngineReport::new();
    assert_eq!(r.average_latency_nanos(), 0);
    assert_eq!(r.total_rows(), 0);
    let mut s = EngineReport::new();
    s.record("x".to_string(), QueryOutcome::Failed("down".to_string()));
    assert_eq!(s.average_latency_nanos(), 0);
}

#[test]
fn average_rounds_down() {
    let mut r = EngineReport::new();
    r.record("a".to_string(), QueryOutcome::Measured { rows: 1, elapsed_nanos: 1 });
    r.record("b".to_string(), QueryOutcome::Measured { rows: 1, elapsed_nanos: 2 });
    assert_eq!(r.average_latency_nanos(), 1);
}

#[test]
fn room_check_guards_totals() {
    let mut r = EngineReport::new();
    assert!(r.has_room_for(u64::MAX, u64::MAX));
    r.record("a".to_string(), QueryOutcome::Measured { rows: 1, elapsed_nanos: u64::MAX - 1 });
    assert!(r.has_room_for(0, 1));
    assert!(!r.has_room_for(0, 2));
    assert!(!r.has_room_for(u64::MAX, 0));
}

#[test]
fn relational_schema_creates_only_when_absent() {
    let objs = relational_schema();
    assert_eq!(objs.len(), 6);
    assert_eq!(objs[0].kind, ObjectKind::Table);
    assert_eq!(
        objs[0].statement(),
        "CREATE TABLE IF NOT EXISTS documents_jsonb (id SERIAL PRIMARY KEY, data JSONB NOT NULL)"
    );
    assert_eq!(
        objs[4].statement(),
        "CREATE INDEX IF NOT EXISTS documents_tags_gin_idx ON documents_jsonb USING GIN ((data -> 'tags'))"
    );
    let mut names: Vec<String> = objs.iter().map(|o| o.name.clone()).collect();
    names.sort();
    names.dedup();
    assert_eq!(names.len(), 6);
    for o in &objs[1..] {
        assert!(o.statement().starts_with("CREATE INDEX IF NOT EXISTS "));
    }
}

#[test]
fn search_index_is_created_only_when_missing() {
    assert_eq!(index_step(200), IndexStep::Keep);
    assert_eq!(index_step(404), IndexStep::Create);
    assert_eq!(index_step(500), IndexStep::Create);
    assert_eq!(check_index_created(200, String::new()), Ok(()));
    assert_eq!(
        check_index_created(400, "bad mapping".to_string()),
        Err(BenchError::Schema("bad mapping".to_string()))
    );
}

#[test]
fn mapping_types_the_document_fields() {
    let v: serde_json::Value = serde_json::from_str(search_index_mapping()).unwrap();
    let props = &v["mappings"]["properties"];
    assert_eq!(props["tags"]["type"], "keyword");
    assert_eq!(props["created_at"]["type"], "date");
    assert_eq!(props["attributes"]["properties"]["att0"]["type"], "integer");
    assert_eq!(props["attributes"]["properties"]["att1"]["fields"]["keyword"]["type"], "keyword");
    assert_eq!(search_index_name(), "documents_jsonb");
    assert_eq!(copy_statement(), "COPY documents_jsonb (data) FROM STDIN (FORMAT BINARY)");
}

#[test]
fn search_replies_become_outcomes() {
    let ok = SearchReply::Http { status: 200, hits: Some(7), body: String::new() };
    assert_eq!(search_outcome(ok, 900), QueryOutcome::Measured { rows: 7, elapsed_nanos: 900 });
    let empty = SearchReply::Http { status: 200, hits: None, body: String::new() };
    assert_eq!(search_outcome(empty, 5), QueryOutcome::Measured { rows: 0, elapsed_nanos: 5 });
    let bad = SearchReply::Http { status: 400, hits: None, body: "parse error".to_string() };
    assert_eq!(search_outcome(bad, 5), QueryOutcome::Failed("parse error".to_string()));
    assert_eq!(
        search_outcome(SearchReply::Unreachable("refused".to_string()), 5),
        QueryOutcome::Failed("refused".to_string())
    );
    assert_eq!(
        search_outcome(SearchReply::Malformed("eof".to_string()), 5),
        QueryOutcome::Failed("eof".to_string())
    );
}
