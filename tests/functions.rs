use remap_functions::common_log::{build_log, parse_common_log_line, DEFAULT_TIMESTAMP_FORMAT};
use remap_functions::decimal::parse_decimal;
use remap_functions::error::{CompileError, Error};
use remap_functions::expression::{Compiler, Expr, JoinFn, Object, ParseCommonLogFn, Program};
use remap_functions::function::{ArgumentList, Join, ParseCommonLog};
use remap_functions::join::{join_strings, join_values};
use remap_functions::metrics::{GenericSinkMetrics, Metric};
use remap_functions::type_def::{Kind, TypeDef};
use remap_functions::value::{Timestamp, Value, ValueKind};

fn text(s: &str) -> Value {
    Value::Bytes(s.to_string())
}

fn texts(items: &[&str]) -> Value {
    Value::Array(items.iter().map(|s| text(s)).collect())
}

fn lit(v: Value) -> Expr {
    Expr::Literal(v)
}

fn run(e: &Expr) -> Result<Value, Error> {
    let mut state = Program;
    let mut object = Object { fields: Vec::new() };
    e.execute(&mut state, &mut object)
}

fn call_join(value: Value, separator: Option<Value>) -> Result<Value, Error> {
    let mut args = ArgumentList::new();
    args.insert("value".to_string(), lit(value));
    if let Some(s) = separator {
        args.insert("separator".to_string(), lit(s));
    }
    let e = Join.compile(args).expect("join compiles");
    run(&e)
}

fn call_parse(line: &str, format: Option<&str>) -> Result<Value, Error> {
    let mut args = ArgumentList::new();
    args.insert("value".to_string(), lit(text(line)));
    if let Some(f) = format {
        args.insert("timestamp_format".to_string(), lit(text(f)));
    }
    let e = ParseCommonLog.compile(args).expect("parse_common_log compiles");
    run(&e)
}

fn as_text(v: &Value) -> &str {
    match v {
        Value::Bytes(s) => s.as_str(),
        other => panic!("not text: {:?}", other),
    }
}

fn record(v: Value) -> Vec<(String, Value)> {
    match v {
        Value::Record(e) => e,
        other => panic!("not a map: {:?}", other),
    }
}

fn get<'a>(entries: &'a [(String, Value)], key: &str) -> &'a Value {
    &entries.iter().find(|(k, _)| k == key).expect("key present").1
}

fn type_def_of(e: &Expr) -> TypeDef {
    e.type_def(&Compiler)
}

fn only(kind: ValueKind) -> Kind {
    Kind::single(kind)
}

#[test]
fn with_comma_separator() {
    let r = call_join(texts(&["one", "two", "three"]), Some(text(", "))).unwrap();
    assert_eq!(as_text(&r), "one, two, three");
}

#[test]
fn with_space_separator() {
    let r = call_join(texts(&["one", "two", "three"]), Some(text(" "))).unwrap();
    assert_eq!(as_text(&r), "one two three");
}

#[test]
fn without_separator() {
    let r = call_join(texts(&["one", "two", "three"]), None).unwrap();
    assert_eq!(as_text(&r), "onetwothree");
}

#[test]
fn join_empty_array_is_empty_text() {
    let r = call_join(texts(&[]), Some(text(", "))).unwrap();
    assert_eq!(as_text(&r), "");
}

#[test]
fn join_without_separator_equals_empty_separator() {
    let a = call_join(texts(&["a", "b"]), None).unwrap();
    let b = call_join(texts(&["a", "b"]), Some(text(""))).unwrap();
    assert_eq!(as_text(&a), as_text(&b));
}

#[test]
fn non_string_array_item_throws_error() {
    let items = Value::Array(vec![text("one"), text("two"), Value::Integer(3)]);
    let err = call_join(items, None).unwrap_err();
    assert_eq!(err.message(), "function call error: all array items must be strings");
}

#[test]
fn non_string_item_first_position_fails() {
    let items = Value::Array(vec![Value::Boolean(true), text("two")]);
    let err = join_values(items, Some(text(","))).unwrap_err();
    assert!(matches!(err, Error::NonStringItem));
}

#[test]
fn join_value_not_array_fails() {
    let err = join_values(Value::Integer(427), None).unwrap_err();
    assert_eq!(err.message(), "function call error: expected array, got integer");
}

#[test]
fn join_separator_not_text_fails() {
    let err = join_values(texts(&["a"]), Some(Value::Integer(1))).unwrap_err();
    assert_eq!(err.message(), "function call error: expected string, got integer");
}

#[test]
fn join_strings_puts_separator_between() {
    let parts = vec!["x".to_string(), "y".to_string(), "z".to_string()];
    assert_eq!(join_strings(&parts, "-"), "x-y-z");
}

#[test]
fn value_string_array_fallible() {
    let e = Expr::Join(JoinFn {
        value: Box::new(lit(texts(&["one", "two", "three"]))),
        separator: Some(Box::new(lit(text(", ")))),
    });
    assert_eq!(type_def_of(&e), TypeDef { kind: only(ValueKind::Bytes), fallible: true });
}

#[test]
fn value_wrong_type_fallible() {
    let e = Expr::Join(JoinFn { value: Box::new(lit(Value::Integer(427))), separator: None });
    assert_eq!(type_def_of(&e), TypeDef { kind: only(ValueKind::Bytes), fallible: true });
}

#[test]
fn separator_wrong_type_fallible() {
    let e = Expr::Join(JoinFn {
        value: Box::new(lit(texts(&["one", "two", "three"]))),
        separator: Some(Box::new(lit(Value::Integer(427)))),
    });
    assert_eq!(type_def_of(&e), TypeDef { kind: only(ValueKind::Bytes), fallible: true });
}

#[test]
fn both_types_wrong_fallible() {
    let e = Expr::Join(JoinFn {
        value: Box::new(lit(Value::Boolean(true))),
        separator: Some(Box::new(lit(Value::Integer(427)))),
    });
    assert_eq!(type_def_of(&e), TypeDef { kind: only(ValueKind::Bytes), fallible: true });
}

#[test]
fn log_line_valid() {
    let line = r#"127.0.0.1 bob frank [10/Oct/2000:13:55:36 -0700] "GET /apache_pb.gif HTTP/1.0" 200 2326"#;
    let e = record(call_parse(line, None).unwrap());
    let keys: Vec<&str> = e.iter().map(|(k, _)| k.as_str()).collect();
    assert_eq!(
        keys,
        vec!["host", "identity", "user", "timestamp", "message", "method", "path", "protocol", "status", "size"]
    );
    assert_eq!(as_text(get(&e, "host")), "127.0.0.1");
    assert_eq!(as_text(get(&e, "identity")), "bob");
    assert_eq!(as_text(get(&e, "user")), "frank");
    assert!(matches!(get(&e, "timestamp"), Value::Timestamp(Timestamp { secs: 971211336, nanos: 0 })));
    assert_eq!(as_text(get(&e, "message")), "GET /apache_pb.gif HTTP/1.0");
    assert_eq!(as_text(get(&e, "method")), "GET");
    assert_eq!(as_text(get(&e, "path")), "/apache_pb.gif");
    assert_eq!(as_text(get(&e, "protocol")), "HTTP/1.0");
    assert!(matches!(get(&e, "status"), Value::Integer(200)));
    assert!(matches!(get(&e, "size"), Value::Integer(2326)));
}

#[test]
fn log_line_valid_empty() {
    assert!(record(call_parse("- - - - - - -", None).unwrap()).is_empty());
}

#[test]
fn log_line_valid_empty_variant() {
    assert!(record(call_parse(r#"- - - [-] "-" - -"#, None).unwrap()).is_empty());
}

#[test]
fn log_line_valid_with_timestamp_format() {
    let e = record(call_parse(r#"- - - [2000-10-10T20:55:36Z] "-" - -"#, Some("%+")).unwrap());
    assert_eq!(e.len(), 1);
    assert_eq!(e[0].0, "timestamp");
    assert!(matches!(e[0].1, Value::Timestamp(Timestamp { secs: 971211336, nanos: 0 })));
}

#[test]
fn log_line_invalid() {
    let err = call_parse("not a common log line", None).unwrap_err();
    assert_eq!(err.message(), "function call error: failed parsing common log line");
}

#[test]
fn log_line_invalid_timestamp() {
    let err = call_parse("- - - [1234] - - -", None).unwrap_err();
    assert_eq!(
        err.message(),
        "function call error: failed parsing timestamp 1234 using format %d/%b/%Y:%T %z: input contains invalid characters"
    );
}

#[test]
fn status_too_large_fails() {
    let err = parse_common_log_line("- - - - - 99999999999999999999 -", DEFAULT_TIMESTAMP_FORMAT).unwrap_err();
    assert_eq!(err.message(), "function call error: failed parsing status code");
}

#[test]
fn size_too_large_fails() {
    let err = parse_common_log_line("- - - - - 200 99999999999999999999", DEFAULT_TIMESTAMP_FORMAT).unwrap_err();
    assert_eq!(err.message(), "function call error: failed parsing content length");
}

#[test]
fn build_log_keeps_present_fields_in_order() {
    let mut caps: Vec<Option<String>> = vec![None; 10];
    caps[0] = Some("h".to_string());
    caps[9] = Some("17".to_string());
    let e = record(build_log(&caps, DEFAULT_TIMESTAMP_FORMAT).unwrap());
    assert_eq!(e.len(), 2);
    assert_eq!(e[0].0, "host");
    assert_eq!(as_text(&e[0].1), "h");
    assert_eq!(e[1].0, "size");
    assert!(matches!(e[1].1, Value::Integer(17)));
}

#[test]
fn value_string() {
    let e = Expr::ParseCommonLog(ParseCommonLogFn {
        value: Box::new(lit(text("foo"))),
        timestamp_format: String::new(),
    });
    assert_eq!(type_def_of(&e), TypeDef { kind: only(ValueKind::Record), fallible: false });
}

#[test]
fn value_non_string() {
    let e = Expr::ParseCommonLog(ParseCommonLogFn {
        value: Box::new(lit(Value::Integer(1))),
        timestamp_format: String::new(),
    });
    assert_eq!(type_def_of(&e), TypeDef { kind: only(ValueKind::Record), fallible: true });
}

#[test]
fn value_optional() {
    let e = Expr::ParseCommonLog(ParseCommonLogFn { value: Box::new(Expr::Noop), timestamp_format: String::new() });
    assert_eq!(type_def_of(&e), TypeDef { kind: only(ValueKind::Record), fallible: true });
}

#[test]
fn fallible_child_makes_parent_fallible() {
    let child = Expr::Join(JoinFn { value: Box::new(lit(texts(&["a"]))), separator: None });
    assert!(type_def_of(&child).fallible);
    let e = Expr::ParseCommonLog(ParseCommonLogFn { value: Box::new(child), timestamp_format: String::new() });
    assert!(type_def_of(&e).fallible);
}

#[test]
fn type_def_algebra() {
    let t = TypeDef { kind: only(ValueKind::Integer), fallible: false };
    assert!(t.into_fallible(true).fallible);
    assert!(t.fallible_unless(only(ValueKind::Bytes)).fallible);
    assert!(!t.fallible_unless(only(ValueKind::Integer)).fallible);
    assert_eq!(t.with_constraint(only(ValueKind::Record)).kind, only(ValueKind::Record));
}

#[test]
fn duplicated_trees_run_independently() {
    let e = Expr::Join(JoinFn { value: Box::new(lit(texts(&["a", "b"]))), separator: Some(Box::new(lit(text("+")))) });
    let copy = e.duplicate();
    let mut s1 = Program;
    let mut s2 = Program;
    let mut o1 = Object { fields: vec![("k".to_string(), Value::Integer(1))] };
    let mut o2 = Object { fields: Vec::new() };
    let r1 = e.execute(&mut s1, &mut o1).unwrap();
    let r2 = copy.execute(&mut s2, &mut o2).unwrap();
    assert_eq!(as_text(&r1), "a+b");
    assert_eq!(as_text(&r2), "a+b");
    assert_eq!(o1.fields.len(), 1);
    assert!(o2.fields.is_empty());
}

#[test]
fn missing_value_argument() {
    match Join.compile(ArgumentList::new()) {
        Err(CompileError::MissingArgument(k)) => assert_eq!(k, "value"),
        _ => panic!("expected a missing argument"),
    }
}

#[test]
fn literal_of_wrong_kind_is_not_accepted() {
    let mut args = ArgumentList::new();
    args.insert("value".to_string(), lit(Value::Integer(1)));
    match Join.compile(args) {
        Err(CompileError::NotAccepted(k)) => assert_eq!(k, "value"),
        _ => panic!("expected a refused argument"),
    }
}

#[test]
fn timestamp_format_must_be_literal() {
    let mut args = ArgumentList::new();
    args.insert("value".to_string(), lit(text("- - - - - - -")));
    args.insert("timestamp_format".to_string(), Expr::Noop);
    match ParseCommonLog.compile(args) {
        Err(CompileError::NotLiteral(k)) => assert_eq!(k, "timestamp_format"),
        _ => panic!("expected a non-literal error"),
    }
}

#[test]
fn identifiers_and_parameters() {
    assert_eq!(Join.identifier(), "join");
    assert_eq!(ParseCommonLog.identifier(), "parse_common_log");
    let p = ParseCommonLog.parameters();
    assert_eq!(p[1].keyword, "timestamp_format");
    assert!(!p[1].required);
}

#[test]
fn decimal_parsing() {
    assert_eq!(parse_decimal("0"), Some(0));
    assert_eq!(parse_decimal("9223372036854775807"), Some(i64::MAX));
    assert_eq!(parse_decimal("9223372036854775808"), None);
    assert_eq!(parse_decimal(""), None);
    assert_eq!(parse_decimal("12a"), None);
}

#[test]
fn sink_metrics_keep_their_metrics() {
    let m = GenericSinkMetrics::new(vec![Metric { name: "processed_events_total".to_string(), value: 5 }]);
    assert_eq!(m.metrics.len(), 1);
    assert_eq!(m.metrics[0].value, 5);
}

#[test]
fn joined_text_splits_back_into_items() {
    let r = call_join(texts(&["a", "bc", "", "d"]), Some(text("|"))).unwrap();
    let back: Vec<&str> = as_text(&r).split('|').collect();
    assert_eq!(back, vec!["a", "bc", "", "d"]);
}

#[test]
fn non_text_item_wins_over_failing_separator() {
    let mut args = ArgumentList::new();
    args.insert("value".to_string(), lit(Value::Array(vec![text("a"), Value::Null])));
    let failing = Expr::Join(JoinFn { value: Box::new(lit(Value::Integer(1))), separator: None });
    args.insert("separator".to_string(), failing);
    let e = Join.compile(args).unwrap();
    assert!(matches!(run(&e), Err(Error::NonStringItem)));
}

#[test]
fn child_error_is_passed_on() {
    let bad = Expr::Join(JoinFn { value: Box::new(lit(Value::Integer(1))), separator: None });
    let e = Expr::ParseCommonLog(ParseCommonLogFn { value: Box::new(bad), timestamp_format: String::new() });
    assert_eq!(run(&e).unwrap_err().message(), "function call error: expected array, got integer");
}

#[test]
fn parse_node_over_computed_line() {
    let inner = Expr::Join(JoinFn {
        value: Box::new(lit(texts(&["- - -", "\"-\" 200 -"]))),
        separator: Some(Box::new(lit(text(" [-] ")))),
    });
    let e = Expr::ParseCommonLog(ParseCommonLogFn {
        value: Box::new(inner),
        timestamp_format: DEFAULT_TIMESTAMP_FORMAT.to_string(),
    });
    let entries = record(run(&e).unwrap());
    assert_eq!(entries.len(), 1);
    assert_eq!(entries[0].0, "status");
    assert!(matches!(entries[0].1, Value::Integer(200)));
}

#[test]
fn lossy_decoding_replaces_invalid_bytes() {
    let v = Value::from_utf8_lossy(&[b'a', 0xff, b'b']);
    assert_eq!(as_text(&v), "a\u{FFFD}b");
    let w = Value::from_utf8_lossy(b"plain");
    assert_eq!(w.try_bytes_utf8_lossy().unwrap(), "plain");
}

#[test]
fn duplicated_value_keeps_content() {
    let v = Value::Record(vec![("k".to_string(), texts(&["x", "y"]))]);
    match v.duplicate() {
        Value::Record(e) => {
            assert_eq!(e[0].0, "k");
            match &e[0].1 {
                Value::Array(items) => assert_eq!(items.iter().map(|i| as_text(i)).collect::<Vec<_>>(), vec!["x", "y"]),
                other => panic!("not an array: {:?}", other),
            }
        }
        other => panic!("not a map: {:?}", other),
    }
}
