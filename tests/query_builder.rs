use searcher::query::{MultiMatchQuery, QueryString};

#[test]
fn query_string_keeps_text_and_default_fields() {
    let q = QueryString::new("report");
    assert_eq!(q.query, "report");
    assert_eq!(q.operator, "or");
    assert_eq!(q.fields, vec!["entity_data".to_string(), "document_path".to_string()]);
}

#[test]
fn multi_match_wraps_query_string() {
    let q = MultiMatchQuery::new("annual report");
    assert_eq!(q.multi_match.query, "annual report");
    assert_eq!(q.multi_match.operator, "or");
    assert_eq!(q.multi_match.fields.len(), 2);
    assert_eq!(q.multi_match.fields[0], "entity_data");
    assert_eq!(q.multi_match.fields[1], "document_path");
}

#[test]
fn empty_query_is_well_formed() {
    let q = MultiMatchQuery::new("");
    assert_eq!(q.multi_match.query, "");
    assert_eq!(q.multi_match.operator, "or");
    assert_eq!(q.multi_match.fields.len(), 2);
}

#[test]
fn building_twice_gives_identical_queries() {
    let a = MultiMatchQuery::new("Пьер Безухов");
    let b = MultiMatchQuery::new("Пьер Безухов");
    assert_eq!(a.multi_match.query, b.multi_match.query);
    assert_eq!(a.multi_match.operator, b.multi_match.operator);
    assert_eq!(a.multi_match.fields, b.multi_match.fields);
}
