use load_manager::q_name::{
    coerce_to_string, get_local_name, get_uri, init, to_string, QName, ScriptError, Value,
};

fn name(uri: Option<&str>, local: Option<&str>) -> QName {
    QName { uri: uri.map(str::to_string), local_name: local.map(str::to_string) }
}

fn string(text: &str) -> Value {
    Value::String(text.to_string())
}

fn parts(name: &QName) -> (Option<&str>, Option<&str>) {
    (name.uri.as_deref(), name.local_name.as_deref())
}

fn text_of(value: Value) -> Option<String> {
    match value {
        Value::String(text) => Some(text),
        _ => None,
    }
}

#[test]
fn init_with_one_string_uses_the_public_namespace() {
    let mut this = QName::any();
    let result = init(&mut this, &[string("item"), Value::Undefined]);
    assert!(matches!(result, Ok(Value::Undefined)));
    assert_eq!(parts(&this), (Some(""), Some("item")));
}

#[test]
fn init_with_a_star_leaves_the_name_open() {
    let mut this = QName::any();
    let result = init(&mut this, &[string("*"), Value::Undefined]);
    assert!(matches!(result, Ok(Value::Undefined)));
    assert_eq!(parts(&this), (None, None));
}

#[test]
fn init_with_a_qname_copies_it() {
    let mut this = QName::any();
    let other = name(Some("http://ns"), Some("tag"));
    let result = init(&mut this, &[Value::QName(other), Value::Undefined]);
    assert!(matches!(result, Ok(Value::Undefined)));
    assert_eq!(parts(&this), (Some("http://ns"), Some("tag")));
}

#[test]
fn init_with_nothing_coerces_undefined() {
    let mut this = QName::any();
    init(&mut this, &[Value::Undefined, Value::Undefined]).unwrap();
    assert_eq!(parts(&this), (Some(""), Some("undefined")));
}

#[test]
fn init_with_namespace_object_and_local_name() {
    let mut this = QName::any();
    let result = init(&mut this, &[Value::Namespace("http://ns".to_string()), string("tag")]);
    assert!(matches!(result, Ok(Value::Undefined)));
    assert_eq!(parts(&this), (Some("http://ns"), Some("tag")));
}

#[test]
fn init_with_namespace_string_and_qname_as_local_name() {
    let mut this = QName::any();
    let other = name(Some("http://other"), Some("tag"));
    init(&mut this, &[string("http://ns"), Value::QName(other)]).unwrap();
    assert_eq!(parts(&this), (Some("http://ns"), Some("tag")));

    let mut this = QName::any();
    init(&mut this, &[string("http://ns"), Value::QName(QName::any())]).unwrap();
    assert_eq!(parts(&this), (Some("http://ns"), Some("*")));
}

#[test]
fn init_with_null_or_undefined_namespace_keeps_the_namespace() {
    let mut this = QName::any();
    init(&mut this, &[Value::Null, string("tag")]).unwrap();
    assert_eq!(parts(&this), (None, Some("tag")));

    let mut this = name(Some("http://kept"), None);
    init(&mut this, &[Value::Undefined, Value::Null]).unwrap();
    assert_eq!(parts(&this), (Some("http://kept"), Some("null")));
}

#[test]
fn init_with_a_qname_as_namespace_uses_its_text() {
    let mut this = QName::any();
    let other = name(Some("http://ns"), Some("tag"));
    init(&mut this, &[Value::QName(other), string("leaf")]).unwrap();
    assert_eq!(parts(&this), (Some("http://ns::tag"), Some("leaf")));
}

#[test]
fn init_ignores_further_arguments() {
    let mut this = QName::any();
    init(&mut this, &[string("ns"), string("tag"), string("extra")]).unwrap();
    assert_eq!(parts(&this), (Some("ns"), Some("tag")));
}

#[test]
fn init_that_throws_leaves_this_alone() {
    let mut this = name(Some("http://kept"), Some("kept"));
    let result = init(&mut this, &[Value::Other(None), string("tag")]);
    assert!(matches!(result, Err(ScriptError)));
    assert_eq!(parts(&this), (Some("http://kept"), Some("kept")));

    let result = init(&mut this, &[string("ns"), Value::Other(None)]);
    assert!(matches!(result, Err(ScriptError)));
    assert_eq!(parts(&this), (Some("http://kept"), Some("kept")));

    let result = init(&mut this, &[Value::Other(None), Value::Undefined]);
    assert!(matches!(result, Err(ScriptError)));
    assert_eq!(parts(&this), (Some("http://kept"), Some("kept")));
}

#[test]
fn init_with_other_values_uses_what_they_coerce_to() {
    let mut this = QName::any();
    init(&mut this, &[Value::Other(Some("42".to_string())), Value::Undefined]).unwrap();
    assert_eq!(parts(&this), (Some(""), Some("42")));
    let mut this = QName::any();
    init(
        &mut this,
        &[Value::Other(Some("1".to_string())), Value::Namespace("http://as-local".to_string())],
    )
    .unwrap();
    assert_eq!(parts(&this), (Some("1"), Some("http://as-local")));
}

#[test]
fn coercion_of_each_kind_of_value() {
    assert_eq!(coerce_to_string(&Value::Undefined), Ok("undefined".to_string()));
    assert_eq!(coerce_to_string(&Value::Null), Ok("null".to_string()));
    assert_eq!(coerce_to_string(&string("x")), Ok("x".to_string()));
    assert_eq!(coerce_to_string(&Value::Namespace("u".to_string())), Ok("u".to_string()));
    assert_eq!(coerce_to_string(&Value::Other(Some("7".to_string()))), Ok("7".to_string()));
    assert_eq!(coerce_to_string(&Value::Other(None)), Err(ScriptError));
    assert_eq!(
        coerce_to_string(&Value::QName(name(Some("u"), Some("n")))),
        Ok("u::n".to_string())
    );
}

#[test]
fn local_name_getter() {
    let tag = Value::QName(name(Some("http://ns"), Some("tag")));
    assert_eq!(text_of(get_local_name(Some(&tag))), Some("tag".to_string()));
    let open = Value::QName(QName::any());
    assert_eq!(text_of(get_local_name(Some(&open))), Some("*".to_string()));
    assert!(matches!(get_local_name(None), Value::Undefined));
    assert!(matches!(get_local_name(Some(&string("tag"))), Value::Undefined));
    assert!(matches!(
        get_local_name(Some(&Value::Namespace("u".to_string()))),
        Value::Undefined
    ));
}

#[test]
fn uri_getter() {
    let tag = Value::QName(name(Some("http://ns"), Some("tag")));
    assert_eq!(text_of(get_uri(Some(&tag))), Some("http://ns".to_string()));
    let public = Value::QName(name(Some(""), Some("tag")));
    assert_eq!(text_of(get_uri(Some(&public))), Some(String::new()));
    let open = Value::QName(name(None, Some("tag")));
    assert!(matches!(get_uri(Some(&open)), Value::Null));
    assert!(matches!(get_uri(None), Value::Undefined));
    assert!(matches!(get_uri(Some(&Value::Null)), Value::Undefined));
}

#[test]
fn to_string_of_each_shape_of_name() {
    let qualified = Value::QName(name(Some("http://ns"), Some("tag")));
    assert_eq!(text_of(to_string(Some(&qualified))), Some("http://ns::tag".to_string()));
    let public = Value::QName(name(Some(""), Some("tag")));
    assert_eq!(text_of(to_string(Some(&public))), Some("tag".to_string()));
    let any_namespace = Value::QName(name(None, Some("tag")));
    assert_eq!(text_of(to_string(Some(&any_namespace))), Some("*::tag".to_string()));
    let any = Value::QName(QName::any());
    assert_eq!(text_of(to_string(Some(&any))), Some("*::*".to_string()));
    let any_name = Value::QName(name(Some("u"), None));
    assert_eq!(text_of(to_string(Some(&any_name))), Some("u::*".to_string()));
    assert!(matches!(to_string(None), Value::Undefined));
    assert!(matches!(to_string(Some(&Value::Other(None))), Value::Undefined));
}

#[test]
fn duplicate_and_texts_of_a_name() {
    let first = name(Some("u"), Some("n"));
    let copy = first.duplicate();
    assert_eq!(parts(&copy), parts(&first));
    assert_eq!(first.local_name_text(), "n");
    assert_eq!(first.as_uri(), "u::n");
    assert_eq!(parts(&QName::any()), (None, None));
}
