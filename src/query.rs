//! Construction of the multi-field text query that a backend runs.
use vstd::prelude::*;

verus! {

/// The fields a free-text query is matched against, in order.
pub open spec fn default_fields() -> Seq<Seq<char>> {
    seq![
        seq!['e', 'n', 't', 'i', 't', 'y', '_', 'd', 'a', 't', 'a'],
        seq!['d', 'o', 'c', 'u', 'm', 'e', 'n', 't', '_', 'p', 'a', 't', 'h'],
    ]
}

/// The operator that combines the per-field matches.
pub open spec fn or_operator() -> Seq<char> {
    seq!['o', 'r']
}

/// Abstract shape of a query over several fields.
pub struct QueryModel {
    pub query: Seq<char>,
    pub operator: Seq<char>,
    pub fields: Seq<Seq<char>>,
}

/// The query that the builder makes of a raw string.
pub open spec fn query_of(value: Seq<char>) -> QueryModel {
    QueryModel { query: value, operator: or_operator(), fields: default_fields() }
}

/// A free-text query matched against several fields, any of which may match.
#[derive(Debug)]
pub struct QueryString {
    pub query: String,
    pub operator: String,
    pub fields: Vec<String>,
}

impl View for QueryString {
    type V = QueryModel;

    open spec fn view(&self) -> QueryModel {
        QueryModel {
            query: self.query@,
            operator: self.operator@,
            fields: self.fields@.map_values(|f: String| f@),
        }
    }
}

impl QueryString {
    pub fn new(value: &str) -> (r: QueryString)
        ensures
            r@ == query_of(value@),
    {
        let mut fields: Vec<String> = Vec::new();
        fields.push("entity_data".to_owned());
        fields.push("document_path".to_owned());
        let r = QueryString { query: value.to_owned(), operator: "or".to_owned(), fields };
        proof {
            reveal_strlit("entity_data");
            reveal_strlit("document_path");
            reveal_strlit("or");
            assert("entity_data"@ =~= default_fields()[0]);
            assert("document_path"@ =~= default_fields()[1]);
            assert("or"@ =~= or_operator());
            assert(r@.fields =~= default_fields());
        }
        r
    }
}

/// The structured query that a backend sends for a text search.
#[derive(Debug)]
pub struct MultiMatchQuery {
    pub multi_match: QueryString,
}

impl View for MultiMatchQuery {
    type V = QueryModel;

    open spec fn view(&self) -> QueryModel {
        self.multi_match@
    }
}

impl MultiMatchQuery {
    pub fn new(value: &str) -> (r: MultiMatchQuery)
        ensures
            r@ == query_of(value@),
    {
        MultiMatchQuery { multi_match: QueryString::new(value) }
    }
}

/// Building a query is deterministic: two queries built from equal strings are
/// equal, and both keep the text, the `or` operator and the default fields in order.
pub proof fn lemma_query_deterministic(a: Seq<char>, b: Seq<char>, qa: MultiMatchQuery, qb: MultiMatchQuery)
    requires
        a == b,
        qa@ == query_of(a),
        qb@ == query_of(b),
    ensures
        qa@ == qb@,
        qa@.query == a,
        qa@.operator == or_operator(),
        qa@.fields == default_fields(),
{
}

} // verus!
