use vstd::prelude::*;
use crate::common_log::{line_model, line_outcome, parse_common_log_line};
use crate::error::Error;
use crate::join::{join_items_model, join_with, join_with_model, mismatch_message, result_model, text_items};
use crate::type_def::{kind_has, kind_single, kind_subset, Kind, TypeDef};
use crate::value::{deep, kind_of, model_kind, Model, Value, ValueKind};

verus! {

/// Run-time state of one execution of a program. The nodes here keep none.
pub struct Program;

/// The static environment of type inference. The nodes here read none.
pub struct Compiler;

/// The event under transformation: values addressed by field name.
pub struct Object {
    pub fields: Vec<(String, Value)>,
}

/// A compiled expression. Each node owns its children.
pub enum Expr {
    Literal(Value),
    Noop,
    Join(JoinFn),
    ParseCommonLog(ParseCommonLogFn),
}

/// A call of `join`: the array to join and, if supplied, the separator.
pub struct JoinFn {
    pub value: Box<Expr>,
    pub separator: Option<Box<Expr>>,
}

/// A call of `parse_common_log`: the line and the timestamp format.
pub struct ParseCommonLogFn {
    pub value: Box<Expr>,
    pub timestamp_format: String,
}

/// The descriptor that type inference gives an expression.
pub open spec fn type_of(e: Expr) -> TypeDef
    decreases e,
{
    match e {
        Expr::Literal(v) => TypeDef { kind: kind_single(kind_of(v)), fallible: false },
        Expr::Noop => TypeDef { kind: kind_single(ValueKind::Null), fallible: false },
        Expr::Join(_) => TypeDef { kind: kind_single(ValueKind::Bytes), fallible: true },
        Expr::ParseCommonLog(p) => {
            let child = type_of(*p.value);
            TypeDef {
                kind: kind_single(ValueKind::Record),
                fallible: child.fallible || !kind_subset(child.kind, kind_single(ValueKind::Bytes)),
            }
        },
    }
}

/// What running an expression gives, as content: a value's content, or an
/// error's message. A child's error is passed on unchanged; `join` checks
/// its array before it runs its separator.
pub open spec fn eval(e: Expr) -> Result<Model, Seq<char>>
    decreases e,
{
    match e {
        Expr::Literal(v) => Ok(deep(v)),
        Expr::Noop => Ok(Model::Null),
        Expr::Join(j) => match eval(*j.value) {
            Err(m) => Err(m),
            Ok(v) => match join_items_model(v) {
                Err(m) => Err(m),
                Ok(parts) => match j.separator {
                    None => join_with_model(parts, None),
                    Some(s) => match eval(*s) {
                        Err(m) => Err(m),
                        Ok(sv) => join_with_model(parts, Some(sv)),
                    },
                },
            },
        },
        Expr::ParseCommonLog(p) => match eval(*p.value) {
            Err(m) => Err(m),
            Ok(Model::Bytes(line)) => line_model(line, p.timestamp_format@),
            Ok(other) => Err(mismatch_message(ValueKind::Bytes, other)),
        },
    }
}

/// The children of a node.
pub open spec fn children(e: Expr) -> Seq<Expr> {
    match e {
        Expr::Join(j) => match j.separator {
            Some(s) => seq![*j.value, *s],
            None => seq![*j.value],
        },
        Expr::ParseCommonLog(p) => seq![*p.value],
        _ => Seq::empty(),
    }
}

impl Expr {
    /// Infers what the expression may produce and whether it may fail.
    pub fn type_def(&self, state: &Compiler) -> (r: TypeDef)
        ensures
            r == type_of(*self),
        decreases self,
    {
        match self {
            Expr::Literal(v) => TypeDef { kind: Kind::single(v.kind()), fallible: false },
            Expr::Noop => TypeDef { kind: Kind::single(ValueKind::Null), fallible: false },
            Expr::Join(j) => j.value.type_def(state).into_fallible(true).with_constraint(
                Kind::single(ValueKind::Bytes),
            ),
            Expr::ParseCommonLog(p) => p.value.type_def(state).fallible_unless(
                Kind::single(ValueKind::Bytes),
            ).with_constraint(Kind::single(ValueKind::Record)),
        }
    }

    /// A copy of the tree, with the same type and the same results.
    pub fn duplicate(&self) -> (r: Expr)
        ensures
            type_of(r) == type_of(*self),
            eval(r) == eval(*self),
        decreases self,
    {
        match self {
            Expr::Literal(v) => Expr::Literal(v.duplicate()),
            Expr::Noop => Expr::Noop,
            Expr::Join(j) => {
                let separator = match &j.separator {
                    Some(s) => Some(Box::new(s.duplicate())),
                    None => None,
                };
                Expr::Join(JoinFn { value: Box::new(j.value.duplicate()), separator })
            },
            Expr::ParseCommonLog(p) => Expr::ParseCommonLog(
                ParseCommonLogFn {
                    value: Box::new(p.value.duplicate()),
                    timestamp_format: p.timestamp_format.clone(),
                },
            ),
        }
    }

    /// Evaluates the expression against one event: the result is `eval`
    /// of the tree. The event and the run state are left as they were, and a
    /// value comes back with a variant that type inference allowed.
    pub fn execute(&self, state: &mut Program, object: &mut Object) -> (r: Result<Value, Error>)
        ensures
            result_model(r) == eval(*self),
            *final(object) == *old(object),
            *final(state) == *old(state),
            r is Ok ==> kind_has(type_of(*self).kind, kind_of(r->Ok_0)),
        decreases self,
    {
        match self {
            Expr::Literal(v) => Ok(v.duplicate()),
            Expr::Noop => Ok(Value::Null),
            Expr::Join(j) => {
                let value = match j.value.execute(state, object) {
                    Ok(v) => v,
                    Err(e) => return Err(e),
                };
                let parts = match text_items(value) {
                    Ok(parts) => parts,
                    Err(e) => return Err(e),
                };
                let separator = match &j.separator {
                    None => None,
                    Some(s) => match s.execute(state, object) {
                        Ok(v) => Some(v),
                        Err(e) => return Err(e),
                    },
                };
                join_with(&parts, separator)
            },
            Expr::ParseCommonLog(p) => {
                let value = match p.value.execute(state, object) {
                    Ok(v) => v,
                    Err(e) => return Err(e),
                };
                let line = match value.try_bytes_utf8_lossy() {
                    Ok(line) => line,
                    Err(m) => return Err(Error::TypeMismatch(m)),
                };
                parse_common_log_line(line.as_str(), p.timestamp_format.as_str())
            },
        }
    }
}

} // verus!
