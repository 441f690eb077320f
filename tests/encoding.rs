use jsonb_bench::document::{Attributes, Document, NestedAttribute, OptionalAttribute};
use jsonb_bench::generator::{encode_corpus, generate_documents_from, RandomSource};
use jsonb_bench::json::{decimal_text, encode_document, object_text, string_array_text};

fn sample(optional: Option<OptionalAttribute>) -> Document {
    Document {
        title: "Hello \"world\"".to_string(),
        content: "line1\nline2".to_string(),
        created_at: "2024-05-01T12:00:00+00:00".to_string(),
        tags: vec!["rust".to_string(), "db".to_string()],
        attributes: Attributes {
            att0: 512,
            att1: "synergize".to_string(),
            att2: NestedAttribute { nested_key: "com".to_string(), nested_bool: false },
            att3: vec!["x".to_string(), "y".to_string()],
            optional,
        },
    }
}

#[test]
fn numbers_are_written_in_decimal() {
    assert_eq!(decimal_text(0), "0");
    assert_eq!(decimal_text(7), "7");
    assert_eq!(decimal_text(10), "10");
    assert_eq!(decimal_text(999), "999");
    assert_eq!(decimal_text(u64::MAX), u64::MAX.to_string());
}

#[test]
fn arrays_and_objects_are_written_in_order() {
    assert_eq!(string_array_text(&vec![]), "[]");
    assert_eq!(string_array_text(&vec!["a".to_string(), "b\"c".to_string()]), "[\"a\",\"b\\\"c\"]");
    assert_eq!(object_text(&vec![]), "{}");
    let members = vec![("k".to_string(), "1".to_string()), ("m".to_string(), "true".to_string())];
    assert_eq!(object_text(&members), "{\"k\":1,\"m\":true}");
}

#[test]
fn document_without_optional_key_encodes_exactly() {
    let text = encode_document(&sample(None));
    assert_eq!(
        text,
        "{\"title\":\"Hello \\\"world\\\"\",\"content\":\"line1\\nline2\",\
         \"created_at\":\"2024-05-01T12:00:00+00:00\",\"tags\":[\"rust\",\"db\"],\
         \"attributes\":{\"att0\":512,\"att1\":\"synergize\",\
         \"att2\":{\"nested_key\":\"com\",\"nested_bool\":false},\"att3\":[\"x\",\"y\"]}}"
    );
}

#[test]
fn optional_key_is_the_last_attribute() {
    let text = encode_document(&sample(Some(OptionalAttribute { slot: 2, value: "123-45-6789".to_string() })));
    assert!(text.ends_with(",\"att3\":[\"x\",\"y\"],\"att_opt_2\":\"123-45-6789\"}}"));
}

#[test]
fn encoding_round_trips_through_json() {
    let mut src = RandomSource::seeded(11);
    let docs = generate_documents_from(&mut src, 100);
    let texts = encode_corpus(&docs);
    assert_eq!(texts.len(), docs.len());
    for (d, t) in docs.iter().zip(texts.iter()) {
        let v: serde_json::Value = serde_json::from_str(t).unwrap();
        assert_eq!(v["title"], d.title.as_str());
        assert_eq!(v["content"], d.content.as_str());
        assert_eq!(v["created_at"], d.created_at.as_str());
        let tags: Vec<String> = serde_json::from_value(v["tags"].clone()).unwrap();
        assert_eq!(tags, d.tags);
        let a = &v["attributes"];
        assert_eq!(a["att0"].as_u64(), Some(d.attributes.att0));
        assert_eq!(a["att1"], d.attributes.att1.as_str());
        assert_eq!(a["att2"]["nested_key"], d.attributes.att2.nested_key.as_str());
        assert_eq!(a["att2"]["nested_bool"], d.attributes.att2.nested_bool);
        let att3: Vec<String> = serde_json::from_value(a["att3"].clone()).unwrap();
        assert_eq!(att3, d.attributes.att3);
        let obj = a.as_object().unwrap();
        match &d.attributes.optional {
            Some(o) => {
                assert_eq!(obj.len(), 5);
                assert_eq!(a[format!("att_opt_{}", o.slot)], o.value.as_str());
            }
            None => {
                assert_eq!(obj.len(), 4);
                assert!(obj.keys().all(|k| !k.starts_with("att_opt_")));
            }
        }
    }
}
