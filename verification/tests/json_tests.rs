use computa_use::json::{Json, JsonNumber};

fn obj(members: Vec<(&str, Json)>) -> Json {
    Json::Object(members.into_iter().map(|(k, v)| (k.to_string(), v)).collect())
}

#[test]
fn get_finds_members_of_objects_only() {
    let j = obj(vec![("a", Json::Bool(true)), ("b", Json::String("x".to_string()))]);
    assert_eq!(j.get("a"), Some(&Json::Bool(true)));
    assert_eq!(j.get("c"), None);
    assert_eq!(Json::Null.get("a"), None);
    assert_eq!(j.get_str("b"), Some("x"));
    assert_eq!(j.get_str("a"), None);
}

#[test]
fn as_i64_reads_integers_that_fit() {
    assert_eq!(Json::Number(JsonNumber::PosInt(5)).as_i64(), Some(5));
    assert_eq!(Json::Number(JsonNumber::PosInt(u64::MAX)).as_i64(), None);
    assert_eq!(Json::Number(JsonNumber::PosInt(i64::MAX as u64)).as_i64(), Some(i64::MAX));
    assert_eq!(Json::Number(JsonNumber::NegInt(-7)).as_i64(), Some(-7));
    assert_eq!(Json::Number(JsonNumber::Float("1.5".to_string())).as_i64(), None);
    assert_eq!(Json::String("3".to_string()).as_i64(), None);
}

#[test]
fn as_array_and_as_str() {
    let a = Json::Array(vec![Json::Null]);
    assert_eq!(a.as_array().map(|v| v.len()), Some(1));
    assert_eq!(Json::Null.as_array(), None);
    assert_eq!(Json::String("hi".to_string()).as_str(), Some("hi"));
    assert_eq!(Json::Bool(false).as_str(), None);
}
