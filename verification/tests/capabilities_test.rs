use rmcp_typescript::json::JsonValue;
use rmcp_typescript::model::capabilities::{
    JsClientCapabilities, JsExperimentalCapabilities, JsRootsCapabilities,
};
use rmcp_typescript::protocol::{ClientCapabilities, RootsCapabilities};

fn settings(flag: bool) -> JsonValue {
    JsonValue::Object(vec![("enabled".to_string(), JsonValue::Bool(flag))])
}

fn object_of_objects() -> JsonValue {
    JsonValue::Object(vec![("alpha".to_string(), settings(true)), ("beta".to_string(), settings(false))])
}

#[test]
fn roots_new_and_default_say_nothing() {
    assert_eq!(JsRootsCapabilities::new().list_changed, None);
    assert_eq!(JsRootsCapabilities::default(), JsRootsCapabilities::new());
}

#[test]
fn roots_round_trip() {
    let roots = JsRootsCapabilities { list_changed: Some(false) };
    let core = roots.to_rust();
    assert_eq!(core, RootsCapabilities { list_changed: Some(false) });
    assert_eq!(JsRootsCapabilities::from_rust(&core), roots);
}

#[test]
fn experimental_from_object_of_objects() {
    let exp = JsExperimentalCapabilities::new(object_of_objects());
    assert_eq!(exp.inner().len(), 2);
    assert_eq!(exp.inner()[0].0, "alpha");
    assert_eq!(exp.inner()[1].1, vec![("enabled".to_string(), JsonValue::Bool(false))]);
}

#[test]
fn experimental_from_other_values_is_empty() {
    assert!(JsExperimentalCapabilities::new(JsonValue::Null).inner().is_empty());
    assert!(JsExperimentalCapabilities::new(JsonValue::Array(vec![settings(true)])).inner().is_empty());
    let mixed = JsonValue::Object(vec![
        ("alpha".to_string(), settings(true)),
        ("beta".to_string(), JsonValue::Number("3".to_string())),
    ]);
    assert!(JsExperimentalCapabilities::from_js(mixed).inner().is_empty());
    assert_eq!(JsExperimentalCapabilities::default(), JsExperimentalCapabilities::new(JsonValue::Object(vec![])));
}

#[test]
fn experimental_json_round_trip() {
    let exp = JsExperimentalCapabilities::from_js(object_of_objects());
    let json = exp.to_json();
    assert_eq!(json, object_of_objects());
    assert_eq!(JsExperimentalCapabilities::from_js(json), exp);
}

#[test]
fn experimental_protocol_round_trip() {
    let exp = JsExperimentalCapabilities::new(object_of_objects());
    let core = exp.to_rust();
    assert_eq!(JsExperimentalCapabilities::from_rust(&core), exp);
}

#[test]
fn client_capabilities_to_protocol_form() {
    let caps = JsClientCapabilities::new(
        JsExperimentalCapabilities::new(object_of_objects()),
        JsRootsCapabilities { list_changed: Some(true) },
        Some(settings(true)),
    );
    let core = caps.to_rust();
    assert_eq!(core.experimental.as_ref().map(|e| e.len()), Some(2));
    assert_eq!(core.roots, Some(RootsCapabilities { list_changed: Some(true) }));
    assert_eq!(core.sampling, Some(vec![("enabled".to_string(), JsonValue::Bool(true))]));
    assert_eq!(JsClientCapabilities::from_rust(&core), caps);
}

#[test]
fn client_capabilities_drop_sampling_that_is_not_an_object() {
    let caps = JsClientCapabilities::new(
        JsExperimentalCapabilities::default(),
        JsRootsCapabilities::new(),
        Some(JsonValue::String("yes".to_string())),
    );
    let core = caps.to_rust();
    assert_eq!(core.sampling, None);
    assert_eq!(JsClientCapabilities::from_rust(&core).sampling, None);
}

#[test]
fn client_capabilities_from_absent_parts() {
    let core = ClientCapabilities { experimental: None, roots: None, sampling: None };
    let caps = JsClientCapabilities::from_rust(&core);
    assert!(caps.experimental.inner().is_empty());
    assert_eq!(caps.roots.list_changed, None);
    assert_eq!(caps.sampling, None);
    let again = caps.to_rust();
    assert_eq!(again.experimental, Some(vec![]));
    assert_eq!(again.roots, Some(RootsCapabilities { list_changed: None }));
}

#[test]
fn deep_clone_copies_nested_values() {
    let v = JsonValue::Array(vec![object_of_objects(), JsonValue::Number("1.5".to_string()), JsonValue::Null]);
    assert_eq!(v.deep_clone(), v);
}

#[test]
fn experimental_names_out_of_order_give_none() {
    let unsorted = JsonValue::Object(vec![("beta".to_string(), settings(true)), ("alpha".to_string(), settings(false))]);
    assert!(JsExperimentalCapabilities::new(unsorted).inner().is_empty());
    let repeated = JsonValue::Object(vec![("alpha".to_string(), settings(true)), ("alpha".to_string(), settings(false))]);
    assert!(JsExperimentalCapabilities::new(repeated).inner().is_empty());
    let unsorted_settings = JsonValue::Object(vec![(
        "alpha".to_string(),
        JsonValue::Object(vec![("z".to_string(), JsonValue::Null), ("a".to_string(), JsonValue::Null)]),
    )]);
    assert!(JsExperimentalCapabilities::from_js(unsorted_settings).inner().is_empty());
    let core = vec![("b".to_string(), vec![]), ("a".to_string(), vec![])];
    assert!(JsExperimentalCapabilities::from_rust(&core).inner().is_empty());
}

#[test]
fn experimental_names_sort_by_code_point() {
    let names = JsonValue::Object(vec![
        ("B".to_string(), settings(true)),
        ("a".to_string(), settings(true)),
        ("ab".to_string(), settings(true)),
        ("é".to_string(), settings(true)),
    ]);
    let exp = JsExperimentalCapabilities::new(names);
    assert_eq!(exp.inner().len(), 4);
    assert_eq!(exp.deep_clone(), exp);
}
