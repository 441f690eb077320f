use jsonb_bench::document::{Attributes, Document, NestedAttribute, OptionalAttribute};
use jsonb_bench::error::BenchError;
use jsonb_bench::evaluate::count_matching;
use jsonb_bench::query::{
    canonical_queries, parse_threshold, translate, Predicate, QueryIntent, SearchQuery, SqlParam,
    SqlStatement,
};

fn doc(tags: &[&str], att0: u64, nested: &str, optional: Option<u64>) -> Document {
    Document {
        title: format!("title {}", att0),
        content: "body".to_string(),
        created_at: "2024-01-01T00:00:00+00:00".to_string(),
        tags: tags.iter().map(|t| t.to_string()).collect(),
        attributes: Attributes {
            att0,
            att1: "synergize markets".to_string(),
            att2: NestedAttribute { nested_key: nested.to_string(), nested_bool: true },
            att3: vec!["a".to_string(), "b".to_string()],
            optional: optional.map(|slot| OptionalAttribute { slot, value: "123-45-6789".to_string() }),
        },
    }
}

fn corpus() -> Vec<Document> {
    vec![
        doc(&["rust", "go"], 500, "com", Some(0)),
        doc(&["python"], 501, "org", None),
        doc(&["rust"], 999, "com", Some(1)),
        doc(&["java", "rust", "rust"], 0, "net", Some(3)),
    ]
}

fn predicate_of(intent: &QueryIntent) -> Predicate {
    translate(intent).unwrap().predicate
}

#[test]
fn thresholds_parse_as_decimal_integers() {
    assert_eq!(parse_threshold("500"), Ok(500));
    assert_eq!(parse_threshold("0"), Ok(0));
    assert_eq!(parse_threshold("-42"), Ok(-42));
    assert_eq!(parse_threshold("007"), Ok(7));
    assert_eq!(parse_threshold("9223372036854775807"), Ok(i64::MAX));
    assert_eq!(parse_threshold("-9223372036854775808"), Ok(i64::MIN));
}

#[test]
fn malformed_thresholds_are_translation_errors() {
    for bad in ["", "-", "abc", "5.0", "12a", "+5", " 5", "9223372036854775808", "-9223372036854775809", "99999999999999999999999"] {
        assert_eq!(parse_threshold(bad), Err(BenchError::Translation(bad.to_string())), "{}", bad);
    }
}

#[test]
fn battery_has_six_distinct_shapes() {
    let q = canonical_queries();
    assert_eq!(q.len(), 6);
    assert_eq!(q[0].intent, QueryIntent::TagContains("rust".to_string()));
    assert_eq!(q[1].intent, QueryIntent::AttributeExists("att1".to_string()));
    assert_eq!(q[2].intent, QueryIntent::NestedKeyEquals("com".to_string()));
    assert_eq!(q[3].intent, QueryIntent::Att0GreaterThan("500".to_string()));
    assert_eq!(q[4].intent, QueryIntent::OptionalKeyExists("att_opt_1".to_string()));
    assert_eq!(q[5].intent, QueryIntent::AbsentTag("nonexistent".to_string()));
    assert_eq!(q[3].description, "attr att0 > 500");
}

#[test]
fn tag_intent_translates_to_containment_and_term() {
    let n = translate(&QueryIntent::TagContains("rust".to_string())).unwrap();
    assert_eq!(n.statement, SqlStatement::TagContains);
    assert_eq!(n.param, SqlParam::JsonStringArray("rust".to_string()));
    assert_eq!(n.search, SearchQuery::Term { field: "tags".to_string(), value: "rust".to_string() });
    assert!(n.statement.sql().contains("data -> 'tags' @> $1::jsonb"));
}

#[test]
fn key_and_nested_intents_translate() {
    let e = translate(&QueryIntent::OptionalKeyExists("att_opt_1".to_string())).unwrap();
    assert_eq!(e.statement, SqlStatement::AttributeKeyExists);
    assert_eq!(e.param, SqlParam::Text("att_opt_1".to_string()));
    assert_eq!(e.search, SearchQuery::Exists { field: "attributes.att_opt_1".to_string() });
    let n = translate(&QueryIntent::NestedKeyEquals("com".to_string())).unwrap();
    assert_eq!(n.param, SqlParam::Text("com".to_string()));
    assert_eq!(
        n.search,
        SearchQuery::Term { field: "attributes.att2.nested_key".to_string(), value: "com".to_string() }
    );
}

#[test]
fn range_intent_carries_its_threshold() {
    let n = translate(&QueryIntent::Att0GreaterThan("500".to_string())).unwrap();
    assert_eq!(n.predicate, Predicate::Att0Above(500));
    assert_eq!(n.param, SqlParam::Int(500));
    assert_eq!(n.search, SearchQuery::GreaterThan { field: "attributes.att0".to_string(), bound: 500 });
    let m = translate(&QueryIntent::Att0GreaterThan("750".to_string())).unwrap();
    assert_eq!(m.param, SqlParam::Int(750));
    assert_eq!(
        translate(&QueryIntent::Att0GreaterThan("high".to_string())),
        Err(BenchError::Translation("high".to_string()))
    );
}

#[test]
fn sql_texts_use_the_document_table() {
    for s in [SqlStatement::TagContains, SqlStatement::AttributeKeyExists, SqlStatement::NestedKeyEquals, SqlStatement::Att0Above] {
        let sql = s.sql();
        assert!(sql.starts_with("SELECT data ->> 'title' FROM documents_jsonb WHERE"));
        assert!(sql.ends_with("LIMIT 10"));
        assert!(sql.contains("$1"));
    }
}

#[test]
fn tag_containment_finds_rust() {
    let p = predicate_of(&QueryIntent::TagContains("rust".to_string()));
    assert_eq!(count_matching(&corpus(), &p), 3);
}

#[test]
fn absent_tag_matches_nothing() {
    let p = predicate_of(&QueryIntent::AbsentTag("nonexistent".to_string()));
    assert_eq!(count_matching(&corpus(), &p), 0);
    assert_eq!(count_matching(&vec![], &p), 0);
}

#[test]
fn range_query_keeps_only_values_above_threshold() {
    let docs = corpus();
    let p = predicate_of(&QueryIntent::Att0GreaterThan("500".to_string()));
    assert_eq!(count_matching(&docs, &p), 2);
    for d in &docs {
        assert_eq!(p.matches(d), d.attributes.att0 >= 501);
    }
    assert_eq!(count_matching(&docs, &Predicate::Att0Above(-1)), 4);
    assert_eq!(count_matching(&docs, &Predicate::Att0Above(999)), 0);
}

#[test]
fn key_existence_sees_sparse_keys() {
    let docs = corpus();
    assert_eq!(count_matching(&docs, &Predicate::AttributeKeyExists("att1".to_string())), 4);
    assert_eq!(count_matching(&docs, &Predicate::AttributeKeyExists("att_opt_1".to_string())), 1);
    assert_eq!(count_matching(&docs, &Predicate::AttributeKeyExists("att_opt_2".to_string())), 0);
    assert_eq!(count_matching(&docs, &Predicate::AttributeKeyExists("att9".to_string())), 0);
    assert_eq!(count_matching(&docs, &Predicate::NestedKeyEquals("com".to_string())), 2);
}
