use kalshi_api::decode::{field, FromJson};
use kalshi_api::json::{Json, Member};

fn object(members: Vec<(&str, Json)>) -> Json {
    Json::Object(
        members.into_iter().map(|(name, value)| Member { name: name.to_string(), value }).collect(),
    )
}

#[test]
fn scalars_are_read_from_their_own_kind_only() {
    assert_eq!(bool::from_json(&Json::Bool(true)), Some(true));
    assert_eq!(bool::from_json(&Json::Number(Some(1))), None);
    assert_eq!(i64::from_json(&Json::Number(Some(-3))), Some(-3));
    assert_eq!(i64::from_json(&Json::Number(None)), None);
    assert_eq!(i64::from_json(&Json::Text("3".to_string())), None);
    assert_eq!(String::from_json(&Json::Text("yes".to_string())), Some("yes".to_string()));
    assert_eq!(String::from_json(&Json::Null), None);
    assert_eq!(String::from_json(&Json::Number(Some(3))), None);
}

#[test]
fn an_i32_must_fit() {
    assert_eq!(i32::from_json(&Json::Number(Some(45))), Some(45));
    assert_eq!(i32::from_json(&Json::Number(Some(2147483647))), Some(i32::MAX));
    assert_eq!(i32::from_json(&Json::Number(Some(-2147483648))), Some(i32::MIN));
    assert_eq!(i32::from_json(&Json::Number(Some(2147483648))), None);
    assert_eq!(i32::from_json(&Json::Number(Some(-2147483649))), None);
    assert_eq!(i32::from_json(&Json::Number(None)), None);
}

#[test]
fn a_list_is_read_whole_or_not_at_all() {
    let good = Json::Array(vec![Json::Number(Some(45)), Json::Number(Some(10))]);
    assert_eq!(Vec::<i32>::from_json(&good), Some(vec![45, 10]));
    let bad = Json::Array(vec![Json::Number(Some(45)), Json::Text("10".to_string())]);
    assert_eq!(Vec::<i32>::from_json(&bad), None);
    assert_eq!(Vec::<i32>::from_json(&Json::Array(vec![])), Some(vec![]));
    assert_eq!(Vec::<i32>::from_json(&Json::Null), None);
    assert_eq!(Vec::<i32>::from_json(&Json::Number(Some(1))), None);
}

#[test]
fn lists_nest() {
    let levels = Json::Array(vec![
        Json::Array(vec![Json::Number(Some(45)), Json::Number(Some(10))]),
        Json::Array(vec![]),
    ]);
    assert_eq!(Vec::<Vec<i32>>::from_json(&levels), Some(vec![vec![45, 10], vec![]]));
}

#[test]
fn field_reads_one_member() {
    let document = object(vec![
        ("cursor", Json::Text(String::new())),
        ("limit", Json::Number(Some(0))),
        ("active", Json::Bool(false)),
    ]);
    assert_eq!(field::<String>(&document, "cursor"), Some(String::new()));
    assert_eq!(field::<i32>(&document, "limit"), Some(0));
    assert_eq!(field::<bool>(&document, "active"), Some(false));
}

#[test]
fn field_refuses_a_missing_member_and_a_member_of_another_kind() {
    let document = object(vec![("limit", Json::Number(Some(5)))]);
    assert_eq!(field::<i32>(&document, "cursor"), None);
    assert_eq!(field::<String>(&document, "limit"), None);
    assert_eq!(field::<bool>(&document, "limit"), None);
    assert_eq!(field::<i32>(&Json::Null, "limit"), None);
}
