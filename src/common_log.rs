use vstd::prelude::*;
use vstd::string::*;
use crate::decimal::{decimal_spec, parse_decimal};
use crate::error::{error_message, Error};
use crate::join::result_model;
use crate::value::{deep, deep_entries, lemma_entries_agree, Model, Timestamp, Value};

verus! {

/// The grammar of a common log line (W3C / Apache httpd):
/// `host identity user [timestamp] "method path protocol" status size`,
/// where each field may be a lone `-`.
pub const COMMON_LOG_PATTERN: &'static str = r#"^\s*(-|(?P<host>.*?))\s+(-|(?P<identity>.*?))\s+(-|(?P<user>.*?))\s+(-|\[(-|(?P<timestamp>[^\[]*))\])\s+(-|"(-|(\s*(?P<message>((?P<method>\w+)\s+(?P<path>[[\\"][^"]]*?)\s+(?P<protocol>[[\\"][^"]]*?)\s*|[[\\"][^"]]*?))\s*))")\s+(-|(?P<status>\d+))\s+(-|(?P<size>\d+))\s*"#;

/// The timestamp format used where none is given: `10/Oct/2000:13:55:36 -0700`.
pub const DEFAULT_TIMESTAMP_FORMAT: &'static str = "%d/%b/%Y:%T %z";

pub const FIELD_COUNT: usize = 10;

/// The output key of each field, in the order the line holds them.
pub open spec fn field_name(i: int) -> Seq<char> {
    if i == 0 {
        "host"@
    } else if i == 1 {
        "identity"@
    } else if i == 2 {
        "user"@
    } else if i == 3 {
        "timestamp"@
    } else if i == 4 {
        "message"@
    } else if i == 5 {
        "method"@
    } else if i == 6 {
        "path"@
    } else if i == 7 {
        "protocol"@
    } else if i == 8 {
        "status"@
    } else {
        "size"@
    }
}

pub open spec fn view_opt(o: Option<String>) -> Option<Seq<char>> {
    match o {
        Some(s) => Some(s@),
        None => None,
    }
}

/// For each name, the text its group matched in the first match of
/// `pattern` in `text`, or `None` where the pattern does not compile or
/// does not match.
pub uninterp spec fn named_captures(pattern: Seq<char>, text: Seq<char>, names: Seq<Seq<char>>) -> Option<Seq<Option<Seq<char>>>>;

/// The instant that `text` denotes when read with the `strftime`-style
/// `format`, or the reason it does not parse.
pub uninterp spec fn parsed_timestamp(text: Seq<char>, format: Seq<char>) -> Result<Timestamp, Seq<char>>;

/// Relies on `regex::Regex::new`, `Regex::captures` and `Captures::name`:
/// the text of each named group of the first match, one entry per name.
#[verifier::external_body]
fn regex_named_captures(pattern: &str, text: &str, names: &Vec<String>) -> (r: Option<Vec<Option<String>>>)
    ensures
        match r {
            Some(c) => c@.len() == names@.len() && named_captures(pattern@, text@, names@.map_values(|n: String| n@))
                == Some(c@.map_values(|o: Option<String>| view_opt(o))),
            None => named_captures(pattern@, text@, names@.map_values(|n: String| n@)) is None,
        },
{
    let re = match regex::Regex::new(pattern) {
        Ok(re) => re,
        Err(_) => return None,
    };
    let caps = re.captures(text)?;
    let mut out = Vec::new();
    for n in names.iter() {
        out.push(caps.name(n).map(|m| m.as_str().to_string()));
    }
    Some(out)
}

/// Relies on `chrono::DateTime::parse_from_str`, and on `timestamp` and
/// `timestamp_subsec_nanos` of its result; an error is rendered with its
/// `Display`.
#[verifier::external_body]
fn chrono_parse(text: &str, format: &str) -> (r: Result<Timestamp, String>)
    ensures
        match r {
            Ok(t) => parsed_timestamp(text@, format@) == Ok::<Timestamp, Seq<char>>(t),
            Err(e) => parsed_timestamp(text@, format@) == Err::<Timestamp, Seq<char>>(e@),
        },
{
    match chrono::DateTime::parse_from_str(text, format) {
        Ok(dt) => Ok(Timestamp { secs: dt.timestamp(), nanos: dt.timestamp_subsec_nanos() }),
        Err(e) => Err(e.to_string()),
    }
}

pub open spec fn field_names() -> Seq<Seq<char>> {
    Seq::new(FIELD_COUNT as nat, |i: int| field_name(i))
}

pub fn field_name_list() -> (r: Vec<String>)
    ensures
        r@.map_values(|n: String| n@) == field_names(),
        r@.len() == FIELD_COUNT,
{
    let mut r: Vec<String> = Vec::new();
    r.push("host".to_owned());
    r.push("identity".to_owned());
    r.push("user".to_owned());
    r.push("timestamp".to_owned());
    r.push("message".to_owned());
    r.push("method".to_owned());
    r.push("path".to_owned());
    r.push("protocol".to_owned());
    r.push("status".to_owned());
    r.push("size".to_owned());
    assert(r@.map_values(|n: String| n@) =~= field_names());
    r
}

/// The indices below `n` of the fields that are present, in order.
pub open spec fn present(c: Seq<Option<Seq<char>>>, n: int) -> Seq<int>
    decreases n,
{
    if n <= 0 {
        Seq::empty()
    } else if c[n - 1] is Some {
        present(c, n - 1).push(n - 1)
    } else {
        present(c, n - 1)
    }
}

pub open spec fn timestamp_fails(c: Seq<Option<Seq<char>>>, format: Seq<char>) -> bool {
    c[3] is Some && parsed_timestamp(c[3]->Some_0, format) is Err
}

pub open spec fn number_fails(c: Seq<Option<Seq<char>>>, i: int) -> bool {
    c[i] is Some && decimal_spec(c[i]->Some_0) is None
}

/// `v` is what field `i` holds when its text is `text`.
pub open spec fn entry_ok(i: int, text: Seq<char>, format: Seq<char>, v: Value) -> bool {
    if i == 3 {
        parsed_timestamp(text, format) is Ok && v == Value::Timestamp(
            parsed_timestamp(text, format)->Ok_0,
        )
    } else if i == 8 || i == 9 {
        decimal_spec(text) is Some && v == Value::Integer(decimal_spec(text)->Some_0)
    } else {
        v is Bytes && v->Bytes_0@ == text
    }
}

/// The entries for the present fields below `n`, in order, each keyed by
/// its field name.
pub open spec fn entries_match(
    e: Seq<(String, Value)>,
    c: Seq<Option<Seq<char>>>,
    format: Seq<char>,
    n: int,
) -> bool {
    &&& e.len() == present(c, n).len()
    &&& forall|k: int|
        0 <= k < e.len() ==> {
            let i = #[trigger] present(c, n)[k];
            &&& e[k].0@ == field_name(i)
            &&& entry_ok(i, c[i]->Some_0, format, e[k].1)
        }
}

/// What parsing a line whose captured fields are `c` gives: the first field
/// that fails to convert decides the error; else a map of the present fields.
pub open spec fn log_outcome(c: Seq<Option<Seq<char>>>, format: Seq<char>, r: Result<Value, Error>) -> bool {
    if timestamp_fails(c, format) {
        &&& r is Err
        &&& r->Err_0 is Timestamp
        &&& r->Err_0->Timestamp_raw@ == c[3]->Some_0
        &&& r->Err_0->Timestamp_format@ == format
        &&& r->Err_0->Timestamp_cause@ == parsed_timestamp(c[3]->Some_0, format)->Err_0
    } else if number_fails(c, 8) {
        r == Err::<Value, Error>(Error::StatusCode)
    } else if number_fails(c, 9) {
        r == Err::<Value, Error>(Error::ContentLength)
    } else {
        r is Ok && r->Ok_0 is Record && entries_match(r->Ok_0->Record_0@, c, format, FIELD_COUNT as int)
    }
}

/// The content of field `i` when its text is `text`.
pub open spec fn field_model(i: int, text: Seq<char>, format: Seq<char>) -> Model {
    if i == 3 {
        Model::Timestamp(parsed_timestamp(text, format)->Ok_0)
    } else if i == 8 || i == 9 {
        Model::Integer(decimal_spec(text)->Some_0)
    } else {
        Model::Bytes(text)
    }
}

/// The entries for the present fields below `n`, in field order.
pub open spec fn entries_model(c: Seq<Option<Seq<char>>>, format: Seq<char>, n: int) -> Seq<(Seq<char>, Model)>
    decreases n,
{
    if n <= 0 {
        Seq::empty()
    } else if c[n - 1] is Some {
        entries_model(c, format, n - 1).push((field_name(n - 1), field_model(n - 1, c[n - 1]->Some_0, format)))
    } else {
        entries_model(c, format, n - 1)
    }
}

/// The message of a timestamp that does not parse.
pub open spec fn timestamp_message(raw: Seq<char>, format: Seq<char>, cause: Seq<char>) -> Seq<char> {
    "function call error: "@ + ("failed parsing timestamp "@ + raw + " using format "@ + format + ": "@ + cause)
}

/// The content of what building the map from the fields `c` gives.
pub open spec fn log_model(c: Seq<Option<Seq<char>>>, format: Seq<char>) -> Result<Model, Seq<char>> {
    if timestamp_fails(c, format) {
        Err(timestamp_message(c[3]->Some_0, format, parsed_timestamp(c[3]->Some_0, format)->Err_0))
    } else if number_fails(c, 8) {
        Err(error_message(Error::StatusCode))
    } else if number_fails(c, 9) {
        Err(error_message(Error::ContentLength))
    } else {
        Ok(Model::Record(entries_model(c, format, FIELD_COUNT as int)))
    }
}

/// The content of what parsing `line` with `format` gives.
pub open spec fn line_model(line: Seq<char>, format: Seq<char>) -> Result<Model, Seq<char>> {
    match named_captures(COMMON_LOG_PATTERN@, line, field_names()) {
        None => Err(error_message(Error::GrammarMismatch)),
        Some(c) => log_model(c, format),
    }
}

/// Builds the map of a common log line from its captured fields, in field
/// order (host, identity, user, timestamp, message, method, path, protocol,
/// status, size).
pub fn build_log(captures: &Vec<Option<String>>, format: &str) -> (r: Result<Value, Error>)
    requires
        captures@.len() == FIELD_COUNT,
    ensures
        log_outcome(captures@.map_values(|o: Option<String>| view_opt(o)), format@, r),
        result_model(r) == log_model(captures@.map_values(|o: Option<String>| view_opt(o)), format@),
{
    let ghost c = captures@.map_values(|o: Option<String>| view_opt(o));
    let mut out: Vec<(String, Value)> = Vec::new();
    let names = field_name_list();
    let mut i: usize = 0;
    while i < FIELD_COUNT
        invariant
            i <= FIELD_COUNT,
            captures@.len() == FIELD_COUNT,
            c == captures@.map_values(|o: Option<String>| view_opt(o)),
            names@.map_values(|n: String| n@) == field_names(),
            entries_match(out@, c, format@, i as int),
            i > 3 ==> !timestamp_fails(c, format@),
            i > 8 ==> !number_fails(c, 8),
            i > 9 ==> !number_fails(c, 9),
            names@.len() == FIELD_COUNT,
            deep_entries(Value::Record(out), out@.len() as int) == entries_model(c, format@, i as int),
        decreases FIELD_COUNT - i,
    {
        proof {
            assert(names@.map_values(|n: String| n@)[i as int] == field_name(i as int));
            assert(c[i as int] == view_opt(captures@[i as int]));
        }
        match &captures[i] {
            None => {
                proof {
                    assert(present(c, i + 1) == present(c, i as int));
                }
            },
            Some(text) => {
                proof {
                    assert(c[i as int] == Some(text@));
                }
                let v: Value;
                if i == 3 {
                    match chrono_parse(text.as_str(), format) {
                        Ok(t) => {
                            v = Value::Timestamp(t);
                        },
                        Err(cause) => {
                            return Err(
                                Error::Timestamp { raw: text.clone(), format: format.to_owned(), cause },
                            );
                        },
                    }
                } else if i == 8 || i == 9 {
                    match parse_decimal(text.as_str()) {
                        Some(n) => {
                            v = Value::Integer(n);
                        },
                        None => {
                            if i == 8 {
                                return Err(Error::StatusCode);
                            } else {
                                return Err(Error::ContentLength);
                            }
                        },
                    }
                } else {
                    v = Value::Bytes(text.clone());
                }
                let ghost before = out@;
                let ghost old_out = out;
                out.push((names[i].clone(), v));
                proof {
                    lemma_entries_agree(Value::Record(out), Value::Record(old_out), before.len() as int);
                    assert(deep(v) == field_model(i as int, c[i as int]->Some_0, format@));
                    assert(present(c, i + 1) == present(c, i as int).push(i as int));
                    assert(out@[before.len() as int].0@ == field_name(i as int));
                    assert(entry_ok(i as int, c[i as int]->Some_0, format@, out@[before.len() as int].1));
                    assert forall|k: int| 0 <= k < out@.len() implies ({
                        let j = #[trigger] present(c, i + 1)[k];
                        &&& out@[k].0@ == field_name(j)
                        &&& entry_ok(j, c[j]->Some_0, format@, out@[k].1)
                    }) by {
                        if k < before.len() {
                            assert(present(c, i + 1)[k] == present(c, i as int)[k]);
                            assert(out@[k] == before[k]);
                        }
                    }
                }
            },
        }
        i = i + 1;
    }
    Ok(Value::Record(out))
}

/// What parsing `line` with the timestamp format `format` gives: an error
/// where the line does not have the grammar's shape, else the outcome of
/// building the map from its fields.
pub open spec fn line_outcome(line: Seq<char>, format: Seq<char>, r: Result<Value, Error>) -> bool {
    match named_captures(COMMON_LOG_PATTERN@, line, field_names()) {
        None => r == Err::<Value, Error>(Error::GrammarMismatch),
        Some(c) => log_outcome(c, format, r),
    }
}

/// Parses one common log line. Fields written as `-` are left out of the map.
pub fn parse_common_log_line(line: &str, format: &str) -> (r: Result<Value, Error>)
    ensures
        line_outcome(line@, format@, r),
        result_model(r) == line_model(line@, format@),
{
    let names = field_name_list();
    match regex_named_captures(COMMON_LOG_PATTERN, line, &names) {
        None => Err(Error::GrammarMismatch),
        Some(c) => build_log(&c, format),
    }
}

} // verus!
