use tkpd_ha::json::JsonValue;
use tkpd_ha::snapshot::{extract, ExtractError};

fn s(t: &str) -> JsonValue {
    JsonValue::Str(t.to_string())
}

fn obj(entries: Vec<(&str, JsonValue)>) -> JsonValue {
    JsonValue::Object(entries.into_iter().map(|(k, v)| (k.to_string(), v)).collect())
}

fn product_data(name: JsonValue, price: JsonValue, stock: JsonValue) -> JsonValue {
    obj(vec![
        ("name", name),
        ("price", obj(vec![("value", price), ("currency", s("IDR"))])),
        ("stock", obj(vec![("useStock", JsonValue::Bool(true)), ("value", stock)])),
    ])
}

fn response(components: Vec<JsonValue>) -> JsonValue {
    obj(vec![(
        "data",
        obj(vec![(
            "pdpGetLayout",
            obj(vec![("name", s("layout")), ("components", JsonValue::Array(components))]),
        )]),
    )])
}

fn component(name: &str, data: Vec<JsonValue>) -> JsonValue {
    obj(vec![("name", s(name)), ("type", s("product")), ("data", JsonValue::Array(data))])
}

#[test]
fn extract_reads_the_product_component() {
    let doc = response(vec![
        component("media", vec![obj(vec![])]),
        component("product_content", vec![product_data(s("Widget"), JsonValue::Int(15000), s("42"))]),
    ]);
    match extract(&doc) {
        Ok(snap) => {
            assert_eq!(snap.name, "Widget");
            assert_eq!(snap.price, 15000);
            assert_eq!(snap.stock, 42);
        },
        Err(_) => panic!("expected a snapshot"),
    }
}

#[test]
fn extract_uses_the_first_product_component() {
    let doc = response(vec![
        component("product_content", vec![product_data(s("First"), JsonValue::Int(1), s("1"))]),
        component("product_content", vec![product_data(s("Second"), JsonValue::Int(2), s("2"))]),
    ]);
    assert_eq!(extract(&doc).ok().unwrap().name, "First");
}

#[test]
fn extract_reports_the_remote_error_message() {
    let doc = obj(vec![(
        "errors",
        JsonValue::Array(vec![obj(vec![("message", s("product not found"))]), obj(vec![("message", s("other"))])]),
    )]);
    match extract(&doc) {
        Err(ExtractError::RemoteError(m)) => assert_eq!(m, "product not found"),
        _ => panic!("expected a remote error"),
    }
}

#[test]
fn extract_flags_an_error_list_without_message() {
    let doc = obj(vec![("errors", JsonValue::Array(vec![obj(vec![("path", s("x"))])]))]);
    assert!(matches!(extract(&doc), Err(ExtractError::MalformedError)));
    let doc = obj(vec![("errors", JsonValue::Array(vec![]))]);
    assert!(matches!(extract(&doc), Err(ExtractError::MalformedError)));
    let doc = obj(vec![("errors", JsonValue::Null)]);
    assert!(matches!(extract(&doc), Err(ExtractError::MalformedError)));
}

#[test]
fn extract_rejects_a_response_without_product_content() {
    let doc = response(vec![component("media", vec![product_data(s("Widget"), JsonValue::Int(1), s("1"))])]);
    assert!(matches!(extract(&doc), Err(ExtractError::ShapeMismatch)));
    let doc = response(vec![]);
    assert!(matches!(extract(&doc), Err(ExtractError::ShapeMismatch)));
    assert!(matches!(extract(&obj(vec![])), Err(ExtractError::ShapeMismatch)));
    assert!(matches!(extract(&JsonValue::Null), Err(ExtractError::ShapeMismatch)));
}

#[test]
fn extract_rejects_mistyped_fields() {
    let bad = [
        product_data(JsonValue::Int(3), JsonValue::Int(15000), s("42")),
        product_data(s("Widget"), s("15000"), s("42")),
        product_data(s("Widget"), JsonValue::Number, s("42")),
        product_data(s("Widget"), JsonValue::Int(15000), JsonValue::Int(42)),
        product_data(s("Widget"), JsonValue::Int(15000), s("many")),
        product_data(s("Widget"), JsonValue::Int(15000), s("")),
    ];
    for d in bad {
        let doc = response(vec![component("product_content", vec![d])]);
        assert!(matches!(extract(&doc), Err(ExtractError::ShapeMismatch)));
    }
    let doc = response(vec![component("product_content", vec![])]);
    assert!(matches!(extract(&doc), Err(ExtractError::ShapeMismatch)));
}

#[test]
fn extract_accepts_negative_and_signed_stock() {
    let doc = response(vec![component(
        "product_content",
        vec![product_data(s("Widget"), JsonValue::Int(-5), s("+7"))],
    )]);
    let snap = extract(&doc).ok().unwrap();
    assert_eq!(snap.price, -5);
    assert_eq!(snap.stock, 7);
}
