//! Tests for the OData query option builder.

use shapir::odata::QueryOptions;

fn encode_pairs(v: Vec<(&str, &str)>) -> String {
    let mut ser = form_urlencoded::Serializer::new(String::new());
    for (k, val) in v {
        ser.append_pair(k, val);
    }
    ser.finish()
}

fn strings(v: Vec<&str>) -> Vec<String> {
    v.into_iter().map(|s| s.to_string()).collect()
}

#[test]
fn query_options_query_options_none() {
    let opts: String = QueryOptions::new().to_string();
    assert_eq!(opts, "".to_string());
}

#[test]
fn query_options_query_options_select() {
    let opts: String = QueryOptions::new()
        .select(Some(strings(vec!["Field1", "Field2", "3"])))
        .to_string();
    assert_eq!(opts, encode_pairs(vec![("$select", "Field1,Field2,3")]));
}

#[test]
fn query_options_query_options_expand() {
    let opts: String = QueryOptions::new()
        .expand(Some(strings(vec!["Children", "Siblings"])))
        .to_string();
    assert_eq!(opts, encode_pairs(vec![("$expand", "Children,Siblings")]));
}

#[test]
fn query_options_query_options_filter() {
    let opts: String = QueryOptions::new()
        .filter(Some(strings(vec!["A eq B", "true"])))
        .to_string();
    assert_eq!(opts, encode_pairs(vec![("$filter", "A eq B and true")]));
}

#[test]
fn query_options_query_options_order_by() {
    let opts: String = QueryOptions::new()
        .order_by(Some(strings(vec!["Date asc", "Time desc", "Id"])))
        .to_string();
    assert_eq!(opts, encode_pairs(vec![("$orderBy", "Date asc,Time desc,Id")]));
}

#[test]
fn query_options_query_options_top() {
    let opts: String = QueryOptions::new().top(Some(10u32)).to_string();
    assert_eq!(opts, encode_pairs(vec![("$top", "10")]));
}

#[test]
fn query_options_query_options_skip() {
    let opts: String = QueryOptions::new().skip(Some(9u32)).to_string();
    assert_eq!(opts, encode_pairs(vec![("$skip", "9")]));
}

#[test]
fn query_options_query_options_all() {
    let opts: String = QueryOptions::new()
        .select(Some(strings(vec!["Field1", "Field2", "3"])))
        .expand(Some(strings(vec!["Children", "Siblings"])))
        .filter(Some(strings(vec!["A eq B", "true"])))
        .order_by(Some(strings(vec!["Date asc", "Time desc", "Id"])))
        .top(Some(10u32))
        .skip(Some(9u32))
        .to_string();

    let should_be = encode_pairs(vec![
        ("$select", "Field1,Field2,3"),
        ("$expand", "Children,Siblings"),
        ("$filter", "A eq B and true"),
        ("$orderBy", "Date asc,Time desc,Id"),
        ("$top", "10"),
        ("$skip", "9"),
    ]);

    assert_eq!(opts, should_be);
}
