//! Tests for the OData parameter builder.

use shapir::odata::Parameters;

fn encode_pairs(v: Vec<(&str, &str)>) -> String {
    let mut ser = form_urlencoded::Serializer::new(String::new());
    for (k, val) in v {
        ser.append_pair(k, val);
    }
    ser.finish()
}

fn strings(v: Vec<&str>) -> Vec<String> {
    v.into_iter().map(|s| s.to_string()).collect()
}

#[test]
fn parameters_query_options_none() {
    let opts: String = Parameters::new().to_string();
    assert_eq!(opts, "".to_string());
}

#[test]
fn query_options_custom() {
    let opts: String = Parameters::new()
        .custom(vec![
            ("a".to_string(), "hello".to_string()),
            ("enable".to_string(), "true".to_string()),
        ])
        .custom_add(("price".to_string(), "20".to_string()))
        .to_string();
    assert_eq!(
        opts,
        encode_pairs(vec![("a", "hello"), ("enable", "true"), ("price", "20")])
    );
}

#[test]
fn parameters_query_options_select() {
    let opts: String = Parameters::new()
        .select(strings(vec!["Field1", "Field2", "3"]))
        .to_string();
    assert_eq!(opts, encode_pairs(vec![("$select", "Field1,Field2,3")]));
}

#[test]
fn query_options_select_add() {
    let opts: String = Parameters::new()
        .select_add("Field1".to_string())
        .select_add("Field2".to_string())
        .select_add("3".to_string())
        .to_string();
    assert_eq!(opts, encode_pairs(vec![("$select", "Field1,Field2,3")]));
}

#[test]
fn parameters_query_options_expand() {
    let opts: String = Parameters::new()
        .expand(strings(vec!["Children", "Siblings"]))
        .to_string();
    assert_eq!(opts, encode_pairs(vec![("$expand", "Children,Siblings")]));
}

#[test]
fn query_options_expand_add() {
    let opts: String = Parameters::new()
        .expand_add("Children".to_string())
        .expand_add("Siblings".to_string())
        .to_string();
    assert_eq!(opts, encode_pairs(vec![("$expand", "Children,Siblings")]));
}

#[test]
fn parameters_query_options_filter() {
    let opts: String = Parameters::new()
        .filter(strings(vec!["A eq B", "true"]))
        .to_string();
    assert_eq!(opts, encode_pairs(vec![("$filter", "A eq B and true")]));
}

#[test]
fn query_options_filter_add() {
    let opts: String = Parameters::new()
        .filter_add("A eq B".to_string())
        .filter_add("true".to_string())
        .to_string();
    assert_eq!(opts, encode_pairs(vec![("$filter", "A eq B and true")]));
}

#[test]
fn parameters_query_options_order_by() {
    let opts: String = Parameters::new()
        .order_by(strings(vec!["Date asc", "Time desc", "Id"]))
        .to_string();
    assert_eq!(opts, encode_pairs(vec![("$orderBy", "Date asc,Time desc,Id")]));
}

#[test]
fn query_options_order_by_add() {
    let opts: String = Parameters::new()
        .order_by_add("Date asc".to_string())
        .order_by_add("Time desc".to_string())
        .order_by_add("Id".to_string())
        .to_string();
    assert_eq!(opts, encode_pairs(vec![("$orderBy", "Date asc,Time desc,Id")]));
}

#[test]
fn parameters_query_options_top() {
    let opts: String = Parameters::new().top(10u32).to_string();
    assert_eq!(opts, encode_pairs(vec![("$top", "10")]));
}

#[test]
fn parameters_query_options_skip() {
    let opts: String = Parameters::new().skip(9u32).to_string();
    assert_eq!(opts, encode_pairs(vec![("$skip", "9")]));
}

#[test]
fn parameters_query_options_all() {
    let opts: String = Parameters::new()
        .select(strings(vec!["Field1", "Field2"]))
        .select_add("3".to_string())
        .expand(strings(vec!["Children"]))
        .expand_add("Siblings".to_string())
        .filter(strings(vec!["A eq B"]))
        .filter_add("true".to_string())
        .order_by(strings(vec!["Date asc", "Time desc"]))
        .order_by_add("Id".to_string())
        .top(10u32)
        .skip(9u32)
        .to_string();

    let should_be = encode_pairs(vec![
        ("$select", "Field1,Field2,3"),
        ("$expand", "Children,Siblings"),
        ("$filter", "A eq B and true"),
        ("$orderBy", "Date asc,Time desc,Id"),
        ("$top", "10"),
        ("$skip", "9"),
    ]);

    assert_eq!(opts, should_be);
}
