use scraper::Html;
use scrappy_do::util::{get_unique_element, parse_attr, Form, FormField, ParseError};
use scrappy_do::HandlerImpl;

#[test]
fn unique_element_of_one() {
    assert!(matches!(get_unique_element(vec![7]), Ok(7)));
}

#[test]
fn unique_element_of_none() {
    assert!(matches!(get_unique_element(Vec::<u8>::new()), Err(ParseError::NoElement)));
}

#[test]
fn unique_element_of_many() {
    assert!(matches!(get_unique_element(vec![1, 2]), Err(ParseError::NonUniqueElement)));
}

#[test]
fn attr_of_unique_element() {
    assert_eq!(parse_attr(vec![Some("/next".to_string())], "href").unwrap(), "/next");
    match parse_attr(vec![None], "href") {
        Err(ParseError::MissingAttribute(a)) => assert_eq!(a, "href"),
        _ => panic!("the attribute is missing"),
    }
    assert!(matches!(parse_attr(vec![], "href"), Err(ParseError::NoElement)));
    assert!(matches!(parse_attr(vec![None, None], "href"), Err(ParseError::NonUniqueElement)));
}

#[test]
fn form_fields_override_inputs() {
    let inputs = vec![
        (Some("user".to_string()), Some("guest".to_string())),
        (None, Some("ignored".to_string())),
        (Some("token".to_string()), None),
    ];
    let form = Form::new(
        "/login".to_string(),
        inputs,
        vec![FormField::new("user".to_string(), "alice".to_string())],
    );
    assert_eq!(form.path(), "/login");
    assert_eq!(form.fields().len(), 2);
    assert_eq!(form.value(&"user".to_string()), Some("alice".to_string()));
    assert_eq!(form.value(&"token".to_string()), Some(String::new()));
    assert_eq!(form.value(&"missing".to_string()), None);
}

const PAGE: &str = r#"<html><body>
<form id="other" action="/nope"><input id="x" value="1"></form>
<form id="login" action="/session"><input id="user" value="guest"><input name="anon" value="z"><input id="csrf" value="abc"></form>
</body></html>"#;

#[test]
fn form_builder_finds_form_by_id() {
    let form = Form::builder()
        .id("login".to_string())
        .add_field(FormField::new("user".to_string(), "alice".to_string()))
        .body(Html::parse_document(PAGE))
        .build()
        .unwrap();
    assert_eq!(form.path(), "/session");
    assert_eq!(form.value(&"user".to_string()), Some("alice".to_string()));
    assert_eq!(form.value(&"csrf".to_string()), Some("abc".to_string()));
    assert_eq!(form.value(&"anon".to_string()), None);
    assert_eq!(form.value(&"x".to_string()), None);
}

#[test]
fn form_builder_without_match() {
    let mut extra = vec![FormField::new("a".to_string(), "b".to_string())];
    let r = Form::builder()
        .name("absent".to_string())
        .fields(&mut extra)
        .body(Html::parse_document(PAGE))
        .build();
    assert!(extra.is_empty());
    assert!(r.is_none());
}

#[test]
fn form_builder_selector_text() {
    let b = Form::builder().id("a".to_string()).name("b".to_string());
    assert_eq!(b.selector(), r#"form[id="a",name="b"]"#);
    assert_eq!(Form::builder().name("n".to_string()).selector(), r#"form[name="n"]"#);
    assert_eq!(Form::builder().selector(), "form[]");
}

#[test]
fn form_builder_invalid_selector_gives_none() {
    let r = Form::builder().id("a\"b".to_string()).body(Html::parse_document(PAGE)).build();
    assert!(r.is_none());
}

#[test]
fn first_form_of_found_forms() {
    let found = vec![
        (Some("/a".to_string()), vec![(Some("x".to_string()), Some("1".to_string()))]),
        (Some("/b".to_string()), vec![]),
    ];
    let form = Form::first_of(found, vec![FormField::new("y".to_string(), "2".to_string())]).unwrap();
    assert_eq!(form.path(), "/a");
    assert_eq!(form.value(&"x".to_string()), Some("1".to_string()));
    assert_eq!(form.value(&"y".to_string()), Some("2".to_string()));
    assert!(Form::first_of(vec![], vec![]).is_none());
    assert!(Form::first_of(vec![(None, vec![])], vec![]).is_none());
}

#[test]
fn handler_impl_keeps_name_and_function() {
    let h = HandlerImpl::new(|x: u8| x + 1, "inc");
    assert_eq!(h.name(), "inc");
    assert_eq!((h.function())(1), 2);
}
