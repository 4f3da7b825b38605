use std::rc::Rc;
use std::sync::Arc;

use futures::executor::block_on;
use scalar_str::reflect::SINGULAR;
use scalar_str::str_view;
use scalar_str::string;
use scalar_str::token::{ParseError, ScalarToken};
use scalar_str::value::{InputValue, ScalarValue, Value};

fn text(s: &str) -> Value {
    Value::Scalar(ScalarValue::String(s.to_owned()))
}

fn lit(s: &str) -> InputValue {
    InputValue::Scalar(ScalarValue::String(s.to_owned()))
}

#[test]
fn sync_and_async_resolution_agree() {
    for s in ["", "hello", "ünï©ødé", "with \"quotes\""] {
        let sync = str_view::resolve_value(s);
        let asynchronous = block_on(str_view::resolve_value_async(s));
        assert_eq!(sync, Ok(text(s)));
        assert_eq!(asynchronous, Ok(text(s)));
        assert_eq!(sync, asynchronous);
    }
}

#[test]
fn owned_resolution_agrees_with_borrowed() {
    let owned = "abc".to_owned();
    assert_eq!(string::resolve_value(&owned), str_view::resolve_value("abc"));
    assert_eq!(block_on(string::resolve_value_async(&owned)), Ok(text("abc")));
}

#[test]
fn integer_literal_is_refused_in_every_mode() {
    let v = InputValue::Scalar(ScalarValue::Int(42));
    let msg = "Expected `String`, found: 42".to_owned();
    assert_eq!(str_view::try_from_input_value(&v), Err(msg.clone()));
    assert_eq!(str_view::try_from_input_value_box(&v), Err(msg.clone()));
    assert_eq!(str_view::try_from_input_value_rc(&v), Err(msg.clone()));
    assert_eq!(str_view::try_from_input_value_arc(&v), Err(msg.clone()));
    assert_eq!(string::try_from_input_value(&v), Err(msg));
}

#[test]
fn text_literal_is_accepted_in_every_mode() {
    let v = lit("hello");
    assert_eq!(str_view::try_from_input_value(&v), Ok("hello"));
    assert_eq!(str_view::try_from_input_value_box(&v), Ok(Box::<str>::from("hello")));
    assert_eq!(str_view::try_from_input_value_rc(&v), Ok(Rc::new("hello".to_owned())));
    assert_eq!(str_view::try_from_input_value_arc(&v), Ok(Arc::new("hello".to_owned())));
    assert_eq!(string::try_from_input_value(&v), Ok("hello".to_owned()));
}

#[test]
fn refusal_shows_each_literal_shape() {
    let cases: Vec<(InputValue, &str)> = vec![
        (InputValue::Null, "null"),
        (InputValue::Scalar(ScalarValue::Int(-7)), "-7"),
        (InputValue::Scalar(ScalarValue::Int(i32::MIN)), "-2147483648"),
        (InputValue::Scalar(ScalarValue::Int(0)), "0"),
        (InputValue::Scalar(ScalarValue::Boolean(true)), "true"),
        (InputValue::Scalar(ScalarValue::Boolean(false)), "false"),
        (InputValue::Enum("RED".to_owned()), "RED"),
        (InputValue::Variable("id".to_owned()), "$id"),
        (InputValue::List(vec![]), "[]"),
        (
            InputValue::List(vec![
                InputValue::Scalar(ScalarValue::Int(1)),
                lit("a"),
                InputValue::List(vec![InputValue::Null]),
            ]),
            "[1, \"a\", [null]]",
        ),
        (
            InputValue::Object(vec![
                ("x".to_owned(), InputValue::Scalar(ScalarValue::Int(1))),
                ("y".to_owned(), InputValue::Object(vec![("z".to_owned(), lit("b"))])),
            ]),
            "{x: 1, y: {z: \"b\"}}",
        ),
    ];
    for (v, shown) in cases {
        assert_eq!(v.to_text(), shown);
        let expected = format!("Expected `String`, found: {}", shown);
        assert_eq!(str_view::try_from_input_value(&v), Err(expected.clone()));
        assert_eq!(str_view::try_from_input_value_box(&v), Err(expected));
    }
}

#[test]
fn text_literal_shown_in_quotes() {
    assert_eq!(lit("hi").to_text(), "\"hi\"");
}

#[test]
fn reflection_is_that_of_string() {
    assert_eq!(str_view::name(), "String");
    assert_eq!(str_view::name(), string::name());
    assert_eq!(str_view::schema_type_name(), string::schema_type_name());
    assert_eq!(str_view::wrapped_value(), SINGULAR);
    assert_eq!(str_view::wrapped_value(), string::wrapped_value());
    assert_eq!(str_view::sub_type_names(), vec!["String"]);
    assert_eq!(string::sub_type_names(), vec!["String"]);
    let meta = str_view::meta();
    assert_eq!(meta.name, "String");
    assert_eq!(meta.nesting, SINGULAR);
    assert_eq!(meta.subtypes, vec!["String".to_owned()]);
}

#[test]
fn token_parsing_matches_owned() {
    let tokens = [
        ScalarToken::String("plain"),
        ScalarToken::String(""),
        ScalarToken::String("a\\nb\\t\\\"c\\\"\\\\\\/\\r\\f\\b"),
        ScalarToken::String("\\u0041\\u00e9"),
        ScalarToken::String("\\q"),
        ScalarToken::String("end\\"),
        ScalarToken::String("\\u12"),
        ScalarToken::String("\\uD800"),
        ScalarToken::String("\\uzzzz"),
        ScalarToken::Int("42"),
        ScalarToken::Float("1.5"),
    ];
    for t in tokens {
        assert_eq!(str_view::parse_scalar_token(t), string::parse_scalar_token(t));
    }
}

#[test]
fn string_token_escapes() {
    assert_eq!(
        str_view::parse_scalar_token(ScalarToken::String("a\\nb\\t\\\"c\\\"\\\\\\/\\r\\f\\b")),
        Ok(ScalarValue::String("a\nb\t\"c\"\\/\r\u{c}\u{8}".to_owned()))
    );
    assert_eq!(
        str_view::parse_scalar_token(ScalarToken::String("\\u0041\\u00e9x")),
        Ok(ScalarValue::String("Aéx".to_owned()))
    );
    assert_eq!(
        str_view::parse_scalar_token(ScalarToken::String("plain")),
        Ok(ScalarValue::String("plain".to_owned()))
    );
}

#[test]
fn string_token_errors() {
    assert_eq!(
        str_view::parse_scalar_token(ScalarToken::String("\\q")),
        Err(ParseError::UnknownEscapeSequence("\\q".to_owned()))
    );
    assert_eq!(
        str_view::parse_scalar_token(ScalarToken::String("end\\")),
        Err(ParseError::UnterminatedString)
    );
    assert_eq!(
        str_view::parse_scalar_token(ScalarToken::String("\\u12")),
        Err(ParseError::UnknownEscapeSequence("\\u12".to_owned()))
    );
    assert_eq!(
        str_view::parse_scalar_token(ScalarToken::String("\\uD800")),
        Err(ParseError::UnknownEscapeSequence("\\uD800".to_owned()))
    );
    assert_eq!(
        str_view::parse_scalar_token(ScalarToken::String("\\uzzzz")),
        Err(ParseError::UnknownEscapeSequence("\\uzzzz".to_owned()))
    );
    assert_eq!(
        str_view::parse_scalar_token(ScalarToken::Int("42")),
        Err(ParseError::UnexpectedToken("42".to_owned()))
    );
    assert_eq!(
        str_view::parse_scalar_token(ScalarToken::Float("1.5")),
        Err(ParseError::UnexpectedToken("1.5".to_owned()))
    );
}

#[test]
fn repeated_resolution_is_equal() {
    let first = str_view::resolve_value("same");
    for _ in 0..3 {
        assert_eq!(str_view::resolve_value("same"), first);
        assert_eq!(block_on(str_view::resolve_value_async("same")), first);
    }
}

#[test]
fn request_with_integer_literal_gets_field_error() {
    let argument = InputValue::Scalar(ScalarValue::Int(42));
    let err = str_view::try_from_input_value(&argument).unwrap_err();
    assert_eq!(err, "Expected `String`, found: 42");
}

#[test]
fn field_resolving_ok_gives_ok_both_ways() {
    let native: &str = "ok";
    assert_eq!(str_view::resolve_value(native), Ok(text("ok")));
    assert_eq!(block_on(str_view::resolve_value_async(native)), Ok(text("ok")));
}

#[test]
fn to_input_value_round_trips_through_coercion() {
    let v = str_view::to_input_value("round");
    assert_eq!(v.as_string_value(), Some("round"));
    assert_eq!(str_view::try_from_input_value(&v), Ok("round"));
    assert_eq!(string::to_input_value(&"x".to_owned()).to_text(), "\"x\"");
}
