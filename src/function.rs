use vstd::prelude::*;
use crate::common_log::DEFAULT_TIMESTAMP_FORMAT;
use crate::error::CompileError;
use crate::expression::{Expr, JoinFn, ParseCommonLogFn};
use crate::type_def::{kind_has, kind_single, Kind};
use crate::value::{kind_of, Value, ValueKind};

verus! {

/// A declared parameter of a function: its keyword, the variants a literal
/// argument may have, and whether it must be supplied.
pub struct Parameter {
    pub keyword: &'static str,
    pub accepts: Kind,
    pub required: bool,
}

/// The arguments of one call, by keyword, in the order supplied.
pub struct ArgumentList {
    pub args: Vec<(String, Expr)>,
}

/// The first argument under `k`, and the list without it.
pub open spec fn remove_first(s: Seq<(String, Expr)>, k: Seq<char>) -> (Option<Expr>, Seq<(String, Expr)>)
    decreases s.len(),
{
    if s.len() == 0 {
        (None, s)
    } else if s[0].0@ == k {
        (Some(s[0].1), s.drop_first())
    } else {
        let rest = remove_first(s.drop_first(), k);
        (rest.0, seq![s[0]] + rest.1)
    }
}

/// A literal argument whose variant the parameter does not accept.
pub open spec fn refused(e: Expr, accepts: Kind) -> bool {
    e is Literal && !kind_has(accepts, kind_of(e->Literal_0))
}

impl ArgumentList {
    pub fn new() -> (r: ArgumentList)
        ensures
            r.args@.len() == 0,
    {
        ArgumentList { args: Vec::new() }
    }

    /// Adds an argument under `keyword`.
    pub fn insert(&mut self, keyword: String, expr: Expr)
        ensures
            final(self).args@ == old(self).args@.push((keyword, expr)),
    {
        self.args.push((keyword, expr));
    }

    /// Takes out the first argument under `keyword`.
    pub fn take(&mut self, keyword: &str) -> (r: Option<Expr>)
        ensures
            r == remove_first(old(self).args@, keyword@).0,
            final(self).args@ == remove_first(old(self).args@, keyword@).1,
    {
        let ghost whole = self.args@;
        let kw = keyword.to_owned();
        let mut rest: Vec<(String, Expr)> = Vec::new();
        let mut found: Option<Expr> = None;
        while self.args.len() > 0
            invariant
                found is None ==> remove_first(whole, keyword@) == (
                    remove_first(self.args@, keyword@).0,
                    rest@ + remove_first(self.args@, keyword@).1,
                ),
                found is Some ==> remove_first(whole, keyword@) == (found, rest@ + self.args@),
                kw@ == keyword@,
            decreases self.args@.len(),
        {
            let ghost before = self.args@;
            let a = self.args.remove(0);
            proof {
                assert(before.remove(0) =~= before.drop_first());
            }
            if found.is_none() && a.0 == kw {
                found = Some(a.1);
            } else {
                proof {
                    if found is None {
                        assert(rest@ + (seq![a] + remove_first(self.args@, keyword@).1) =~= rest@.push(a)
                            + remove_first(self.args@, keyword@).1);
                    } else {
                        assert(rest@ + before =~= rest@.push(a) + self.args@);
                    }
                }
                rest.push(a);
            }
        }
        proof {
            assert(rest@ + self.args@ =~= rest@);
            assert(rest@ + Seq::<(String, Expr)>::empty() =~= rest@);
        }
        self.args = rest;
        found
    }

    /// The argument under `keyword`, which must be supplied.
    pub fn required(&mut self, keyword: &str) -> (r: Result<Expr, CompileError>)
        ensures
            final(self).args@ == remove_first(old(self).args@, keyword@).1,
            match remove_first(old(self).args@, keyword@).0 {
                Some(e) => r == Ok::<Expr, CompileError>(e),
                None => r is Err && r->Err_0 is MissingArgument && r->Err_0->MissingArgument_0@ == keyword@,
            },
    {
        match self.take(keyword) {
            Some(e) => Ok(e),
            None => Err(CompileError::MissingArgument(keyword.to_owned())),
        }
    }

    /// The argument under `keyword`, if supplied.
    pub fn optional(&mut self, keyword: &str) -> (r: Option<Expr>)
        ensures
            final(self).args@ == remove_first(old(self).args@, keyword@).1,
            r == remove_first(old(self).args@, keyword@).0,
    {
        self.take(keyword)
    }

    /// The value of the argument under `keyword`, if supplied; it must be a
    /// literal.
    pub fn optional_literal(&mut self, keyword: &str) -> (r: Result<Option<Value>, CompileError>)
        ensures
            final(self).args@ == remove_first(old(self).args@, keyword@).1,
            match remove_first(old(self).args@, keyword@).0 {
                None => r == Ok::<Option<Value>, CompileError>(None),
                Some(Expr::Literal(v)) => r == Ok::<Option<Value>, CompileError>(Some(v)),
                Some(_) => r is Err && r->Err_0 is NotLiteral && r->Err_0->NotLiteral_0@ == keyword@,
            },
    {
        match self.take(keyword) {
            None => Ok(None),
            Some(Expr::Literal(v)) => Ok(Some(v)),
            Some(_) => Err(CompileError::NotLiteral(keyword.to_owned())),
        }
    }
}

/// Refuses a literal argument whose variant the parameter does not accept.
pub fn check_accepts(e: &Expr, accepts: Kind, keyword: &str) -> (r: Result<(), CompileError>)
    ensures
        r is Ok <==> !refused(*e, accepts),
        r is Err ==> r->Err_0 is NotAccepted && r->Err_0->NotAccepted_0@ == keyword@,
{
    match e {
        Expr::Literal(v) => if accepts.contains(v.kind()) {
            Ok(())
        } else {
            Err(CompileError::NotAccepted(keyword.to_owned()))
        },
        _ => Ok(()),
    }
}

pub open spec fn boxed(o: Option<Expr>) -> Option<Box<Expr>> {
    match o {
        Some(e) => Some(Box::new(e)),
        None => None,
    }
}

/// What compiling a call of `join` with `args` gives.
pub open spec fn join_compiled(args: Seq<(String, Expr)>, r: Result<Expr, CompileError>) -> bool {
    let (value, rest) = remove_first(args, "value"@);
    let separator = remove_first(rest, "separator"@).0;
    match value {
        None => r is Err && r->Err_0 is MissingArgument && r->Err_0->MissingArgument_0@ == "value"@,
        Some(v) => if refused(v, kind_single(ValueKind::Array)) {
            r is Err && r->Err_0 is NotAccepted && r->Err_0->NotAccepted_0@ == "value"@
        } else if separator is Some && refused(separator->Some_0, kind_single(ValueKind::Bytes)) {
            r is Err && r->Err_0 is NotAccepted && r->Err_0->NotAccepted_0@ == "separator"@
        } else {
            r == Ok::<Expr, CompileError>(
                Expr::Join(JoinFn { value: Box::new(v), separator: boxed(separator) }),
            )
        },
    }
}

/// The `join` function: joins an array of texts with an optional separator.
pub struct Join;

impl Join {
    pub fn identifier(&self) -> (r: &'static str)
        ensures
            r@ == "join"@,
    {
        "join"
    }

    pub fn parameters(&self) -> (r: Vec<Parameter>)
        ensures
            r@.len() == 2,
            r@[0].keyword@ == "value"@ && r@[0].accepts == kind_single(ValueKind::Array) && r@[0].required,
            r@[1].keyword@ == "separator"@ && r@[1].accepts == kind_single(ValueKind::Bytes) && !r@[1].required,
    {
        let mut r: Vec<Parameter> = Vec::new();
        r.push(Parameter { keyword: "value", accepts: Kind::single(ValueKind::Array), required: true });
        r.push(Parameter { keyword: "separator", accepts: Kind::single(ValueKind::Bytes), required: false });
        r
    }

    /// Binds the arguments and builds the call node.
    pub fn compile(&self, arguments: ArgumentList) -> (r: Result<Expr, CompileError>)
        ensures
            join_compiled(arguments.args@, r),
    {
        let mut arguments = arguments;
        let value = match arguments.required("value") {
            Ok(v) => v,
            Err(e) => return Err(e),
        };
        match check_accepts(&value, Kind::single(ValueKind::Array), "value") {
            Ok(()) => {},
            Err(e) => return Err(e),
        }
        let separator = arguments.optional("separator");
        let separator = match separator {
            Some(s) => match check_accepts(&s, Kind::single(ValueKind::Bytes), "separator") {
                Ok(()) => Some(Box::new(s)),
                Err(e) => return Err(e),
            },
            None => None,
        };
        Ok(Expr::Join(JoinFn { value: Box::new(value), separator }))
    }
}

/// What compiling a call of `parse_common_log` with `args` gives.
pub open spec fn parse_common_log_compiled(args: Seq<(String, Expr)>, r: Result<Expr, CompileError>) -> bool {
    let (value, rest) = remove_first(args, "value"@);
    let format = remove_first(rest, "timestamp_format"@).0;
    match value {
        None => r is Err && r->Err_0 is MissingArgument && r->Err_0->MissingArgument_0@ == "value"@,
        Some(v) => if refused(v, kind_single(ValueKind::Bytes)) {
            r is Err && r->Err_0 is NotAccepted && r->Err_0->NotAccepted_0@ == "value"@
        } else {
            match format {
                None => r is Ok && r->Ok_0 is ParseCommonLog && r->Ok_0->ParseCommonLog_0.value == Box::new(v)
                    && r->Ok_0->ParseCommonLog_0.timestamp_format@ == DEFAULT_TIMESTAMP_FORMAT@,
                Some(Expr::Literal(Value::Bytes(f))) => r == Ok::<Expr, CompileError>(
                    Expr::ParseCommonLog(ParseCommonLogFn { value: Box::new(v), timestamp_format: f }),
                ),
                Some(Expr::Literal(_)) => r is Err && r->Err_0 is NotAccepted && r->Err_0->NotAccepted_0@
                    == "timestamp_format"@,
                Some(_) => r is Err && r->Err_0 is NotLiteral && r->Err_0->NotLiteral_0@
                    == "timestamp_format"@,
            }
        },
    }
}

/// The `parse_common_log` function: parses a common log line into a map.
pub struct ParseCommonLog;

impl ParseCommonLog {
    pub fn identifier(&self) -> (r: &'static str)
        ensures
            r@ == "parse_common_log"@,
    {
        "parse_common_log"
    }

    pub fn parameters(&self) -> (r: Vec<Parameter>)
        ensures
            r@.len() == 2,
            r@[0].keyword@ == "value"@ && r@[0].accepts == kind_single(ValueKind::Bytes) && r@[0].required,
            r@[1].keyword@ == "timestamp_format"@ && r@[1].accepts == kind_single(ValueKind::Bytes)
                && !r@[1].required,
    {
        let mut r: Vec<Parameter> = Vec::new();
        r.push(Parameter { keyword: "value", accepts: Kind::single(ValueKind::Bytes), required: true });
        r.push(
            Parameter { keyword: "timestamp_format", accepts: Kind::single(ValueKind::Bytes), required: false },
        );
        r
    }

    /// Binds the arguments, resolves the timestamp format, and builds the
    /// call node.
    pub fn compile(&self, arguments: ArgumentList) -> (r: Result<Expr, CompileError>)
        ensures
            parse_common_log_compiled(arguments.args@, r),
    {
        let mut arguments = arguments;
        let value = match arguments.required("value") {
            Ok(v) => v,
            Err(e) => return Err(e),
        };
        match check_accepts(&value, Kind::single(ValueKind::Bytes), "value") {
            Ok(()) => {},
            Err(e) => return Err(e),
        }
        let timestamp_format = match arguments.optional_literal("timestamp_format") {
            Ok(None) => DEFAULT_TIMESTAMP_FORMAT.to_owned(),
            Ok(Some(Value::Bytes(f))) => f,
            Ok(Some(_)) => return Err(CompileError::NotAccepted("timestamp_format".to_owned())),
            Err(e) => return Err(e),
        };
        Ok(Expr::ParseCommonLog(ParseCommonLogFn { value: Box::new(value), timestamp_format }))
    }
}

} // verus!
