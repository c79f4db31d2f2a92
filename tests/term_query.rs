use elasticsearch_dsl::bool_query::BoolQuery;
use elasticsearch_dsl::json::WireValue;
use elasticsearch_dsl::query::Query;
use elasticsearch_dsl::params::Boost;
use elasticsearch_dsl::scalar::OptionalScalar;
use elasticsearch_dsl::skip::ShouldSkip;
use elasticsearch_dsl::term_query::TermQuery;

#[test]
fn with_required_fields() {
    let q = TermQuery::new("test", 123);
    assert_eq!(q.to_json(), r#"{"term":{"test":{"value":123}}}"#);
}

#[test]
fn with_all_fields() {
    let q = TermQuery::new("test", 123).boost(2).name("test");
    assert_eq!(
        q.to_json(),
        r#"{"term":{"test":{"value":123,"boost":2.0,"_name":"test"}}}"#
    );
}

#[test]
fn with_none() {
    let q = Query::bool().filter(TermQuery::new("test", None::<String>));
    assert_eq!(q.to_json(), r#"{"bool":{}}"#);
}

#[test]
fn query_term_matches_new() {
    let a = Query::term("test", String::from("username"));
    let b = TermQuery::new("test", String::from("username"));
    assert_eq!(a, b);
    assert_eq!(a.to_json(), r#"{"term":{"test":{"value":"username"}}}"#);
}

#[test]
fn attachment_order_does_not_matter() {
    let a = TermQuery::new("f", 1).boost(3).name("n");
    let b = TermQuery::new("f", 1).name("n").boost(3);
    assert_eq!(a.to_json(), b.to_json());
    assert_eq!(a.to_json(), r#"{"term":{"f":{"value":1,"boost":3.0,"_name":"n"}}}"#);
}

#[test]
fn boost_alone() {
    let q = TermQuery::new("f", true).boost(-4);
    assert_eq!(q.to_json(), r#"{"term":{"f":{"value":true,"boost":-4.0}}}"#);
}

#[test]
fn name_alone() {
    let q = TermQuery::new("f", false).name("tag");
    assert_eq!(q.to_json(), r#"{"term":{"f":{"value":false,"_name":"tag"}}}"#);
}

#[test]
fn absent_term_skips() {
    let q = TermQuery::new("test", None::<String>);
    assert!(q.should_skip());
    assert!(q.should_skip());
    let p = TermQuery::new("test", 0);
    assert!(!p.should_skip());
    assert!(!p.should_skip());
}

#[test]
fn falsy_values_are_present() {
    assert!(!TermQuery::new("f", false).should_skip());
    assert!(!TermQuery::new("f", String::from("")).should_skip());
    assert_eq!(
        TermQuery::new("f", String::from("")).to_json(),
        r#"{"term":{"f":{"value":""}}}"#
    );
}

#[test]
fn serializing_twice_is_stable() {
    let q = TermQuery::new("test", 123).boost(2).name("test");
    let first = q.to_json();
    let second = q.to_json();
    assert_eq!(first, second);
}

#[test]
fn empty_field_name_is_kept() {
    let q = TermQuery::new("", 5);
    assert_eq!(q.to_json(), r#"{"term":{"":{"value":5}}}"#);
}

#[test]
fn integer_extremes() {
    let lo = TermQuery::new("f", i64::MIN);
    assert_eq!(lo.to_json(), r#"{"term":{"f":{"value":-9223372036854775808}}}"#);
    let hi = TermQuery::new("f", i64::MAX).boost(i64::MAX);
    assert_eq!(
        hi.to_json(),
        r#"{"term":{"f":{"value":9223372036854775807,"boost":9223372036854775807.0}}}"#
    );
    let zero = TermQuery::new("f", 0u32);
    assert_eq!(zero.to_json(), r#"{"term":{"f":{"value":0}}}"#);
}

#[test]
fn strings_are_escaped() {
    let q = TermQuery::new("a\"b", String::from("x\\y\n\t\r\u{8}\u{c}\u{1}\u{1f} é"));
    assert_eq!(
        q.to_json(),
        "{\"term\":{\"a\\\"b\":{\"value\":\"x\\\\y\\n\\t\\r\\b\\f\\u0001\\u001f é\"}}}"
    );
}

#[test]
fn owned_string_value() {
    let q = TermQuery::new("user", String::from("kimchy"));
    assert_eq!(q.to_json(), r#"{"term":{"user":{"value":"kimchy"}}}"#);
}

#[test]
fn inner_entries_leave_out_unset() {
    let q = TermQuery::new("f", 7).name("n");
    let es = q.inner_entries();
    assert_eq!(es.len(), 2);
    assert_eq!(es[0].0, "value");
    assert!(matches!(es[0].1, WireValue::Int(7)));
    assert_eq!(es[1].0, "_name");
    assert!(matches!(&es[1].1, WireValue::Str(s) if s == "n"));
    assert_eq!(q.field(), "f");
}

#[test]
fn bool_with_clauses() {
    let q = BoolQuery::new()
        .must(TermQuery::new("a", 1))
        .filter(TermQuery::new("b", None::<String>))
        .filter(TermQuery::new("c", 2).boost(2))
        .must_not(TermQuery::new("d", true))
        .must_not(TermQuery::new("e", String::from("x")));
    assert!(!q.should_skip());
    assert_eq!(
        q.to_json(),
        r#"{"bool":{"must":[{"term":{"a":{"value":1}}}],"filter":[{"term":{"c":{"value":2,"boost":2.0}}}],"must_not":[{"term":{"d":{"value":true}}},{"term":{"e":{"value":"x"}}}]}}"#
    );
}

#[test]
fn bool_should_only() {
    let q = Query::bool().should(TermQuery::new("s", 9));
    assert_eq!(q.to_json(), r#"{"bool":{"should":[{"term":{"s":{"value":9}}}]}}"#);
}

#[test]
fn bool_skip_rule() {
    assert!(Query::bool().should_skip());
    let only_skipped = Query::bool()
        .must(TermQuery::new("x", None::<String>))
        .should(TermQuery::new("y", None::<String>));
    assert!(only_skipped.should_skip());
    assert_eq!(only_skipped.to_json(), r#"{"bool":{}}"#);
}

#[test]
fn query_enum_dispatches() {
    let t: Query = TermQuery::new("f", 1).into();
    assert!(!t.should_skip());
    assert_eq!(t.to_json(), r#"{"term":{"f":{"value":1}}}"#);
    let b: Query = Query::bool().into();
    assert!(b.should_skip());
    assert_eq!(b.to_json(), r#"{"bool":{}}"#);
    let s: Query = TermQuery::new("f", None::<String>).into();
    assert!(s.should_skip());
    assert_eq!(s.to_json(), r#"{"term":{"f":{"value":null}}}"#);
}

#[test]
fn decimal_boosts() {
    let q = TermQuery::new("f", 1).boost(Boost::decimal(25, 1));
    assert_eq!(q.to_json(), r#"{"term":{"f":{"value":1,"boost":2.5}}}"#);
    let small = TermQuery::new("f", 1).boost(Boost::decimal(-5, 2));
    assert_eq!(small.to_json(), r#"{"term":{"f":{"value":1,"boost":-0.05}}}"#);
    let zero = TermQuery::new("f", 1).boost(Boost::decimal(0, 3));
    assert_eq!(zero.to_json(), r#"{"term":{"f":{"value":1,"boost":0.000}}}"#);
    let lo = TermQuery::new("f", 1).boost(Boost::decimal(i64::MIN, 3));
    assert_eq!(
        lo.to_json(),
        r#"{"term":{"f":{"value":1,"boost":-9223372036854775.808}}}"#
    );
    let whole = TermQuery::new("f", 1).boost(7u32);
    assert_eq!(whole.to_json(), r#"{"term":{"f":{"value":1,"boost":7.0}}}"#);
}

#[test]
fn optional_integer_values() {
    assert!(TermQuery::new("f", None::<i64>).should_skip());
    let q = TermQuery::new("f", Some(4i64));
    assert!(!q.should_skip());
    assert_eq!(q.to_json(), r#"{"term":{"f":{"value":4}}}"#);
    assert_eq!(OptionalScalar::from(Some(4i64)), OptionalScalar::Int(4));
    assert!(OptionalScalar::from(None::<i64>).is_absent());
}
