use vstd::prelude::*;
use vstd::string::*;
use crate::error::Error;
use crate::error::error_message;
use crate::value::{deep, deep_items, kind_of, lemma_deep_items, model_kind, KindMismatch, Model, Value, ValueKind};

verus! {

/// The parts, in order, with `sep` between each two neighbours.
pub open spec fn join_spec(parts: Seq<Seq<char>>, sep: Seq<char>) -> Seq<char>
    decreases parts.len(),
{
    if parts.len() == 0 {
        Seq::empty()
    } else if parts.len() == 1 {
        parts[0]
    } else {
        join_spec(parts.drop_last(), sep) + sep + parts.last()
    }
}

/// What a run gives, as content: the value's content, or the error's message.
pub open spec fn result_model(r: Result<Value, Error>) -> Result<Model, Seq<char>> {
    match r {
        Ok(v) => Ok(deep(v)),
        Err(e) => Err(error_message(e)),
    }
}

pub open spec fn mismatch_message(expected: ValueKind, got: Model) -> Seq<char> {
    error_message(Error::TypeMismatch(KindMismatch { expected, got: model_kind(got) }))
}

pub open spec fn all_text_models(items: Seq<Model>) -> bool {
    forall|i: int| 0 <= i < items.len() ==> (#[trigger] items[i]) is Bytes
}

pub open spec fn model_texts(items: Seq<Model>) -> Seq<Seq<char>> {
    items.map_values(|m: Model| m->Bytes_0)
}

/// The first step of `join`: the texts of the array's items, or why there
/// are none.
pub open spec fn join_items_model(value: Model) -> Result<Seq<Seq<char>>, Seq<char>> {
    match value {
        Model::Array(items) => if all_text_models(items) {
            Ok(model_texts(items))
        } else {
            Err(error_message(Error::NonStringItem))
        },
        _ => Err(mismatch_message(ValueKind::Array, value)),
    }
}

/// The second step of `join`: the texts joined with the separator's text
/// (none where no separator is given).
pub open spec fn join_with_model(parts: Seq<Seq<char>>, separator: Option<Model>) -> Result<Model, Seq<char>> {
    match separator {
        None => Ok(Model::Bytes(join_spec(parts, Seq::empty()))),
        Some(Model::Bytes(sep)) => Ok(Model::Bytes(join_spec(parts, sep))),
        Some(m) => Err(mismatch_message(ValueKind::Bytes, m)),
    }
}

pub open spec fn opt_deep(o: Option<Value>) -> Option<Model> {
    match o {
        Some(v) => Some(deep(v)),
        None => None,
    }
}

/// The texts of the items of an array of texts.
pub fn text_items(value: Value) -> (r: Result<Vec<String>, Error>)
    ensures
        match join_items_model(deep(value)) {
            Ok(parts) => r is Ok && r->Ok_0@.map_values(|s: String| s@) == parts,
            Err(m) => r is Err && error_message(r->Err_0) == m,
        },
{
    let ghost value0 = value;
    let items = match value.try_array() {
        Ok(items) => items,
        Err(m) => return Err(Error::TypeMismatch(m)),
    };
    proof {
        lemma_deep_items(value0, items@.len() as int);
    }
    let ghost models = deep_items(value0, items@.len() as int);
    let mut parts: Vec<String> = Vec::new();
    let mut i: usize = 0;
    while i < items.len()
        invariant
            i <= items.len(),
            value0 is Array,
            value0 == value,
            items == value0->Array_0,
            deep(value0) == Model::Array(models),
            models.len() == items@.len(),
            forall|j: int| 0 <= j < items@.len() ==> #[trigger] models[j] == deep(items@[j]),
            parts@.len() == i,
            forall|j: int| 0 <= j < i ==> (#[trigger] models[j]) is Bytes && parts@[j]@ == models[j]->Bytes_0,
        decreases items.len() - i,
    {
        match &items[i] {
            Value::Bytes(s) => parts.push(s.clone()),
            _ => {
                proof {
                    assert(!(models[i as int] is Bytes));
                    assert(!all_text_models(models));
                }
                return Err(Error::NonStringItem);
            },
        }
        i = i + 1;
    }
    proof {
        assert(all_text_models(models));
        assert(parts@.map_values(|s: String| s@) =~= model_texts(models));
    }
    Ok(parts)
}

/// Joins the texts with `sep` between each two neighbours.
pub fn join_strings(parts: &Vec<String>, sep: &str) -> (r: String)
    ensures
        r@ == join_spec(parts@.map_values(|s: String| s@), sep@),
{
    let ghost views = parts@.map_values(|s: String| s@);
    let mut out = String::new();
    let mut i: usize = 0;
    while i < parts.len()
        invariant
            i <= parts.len(),
            views == parts@.map_values(|s: String| s@),
            out@ == join_spec(views.subrange(0, i as int), sep@),
        decreases parts.len() - i,
    {
        proof {
            let next = views.subrange(0, i + 1);
            assert(next.drop_last() =~= views.subrange(0, i as int));
            assert(next.last() == parts@[i as int]@);
        }
        if i > 0 {
            out.append(sep);
        }
        out.append(parts[i].as_str());
        proof {
            if i == 0 {
                assert(views.subrange(0, 0).len() == 0);
            }
        }
        i = i + 1;
    }
    proof {
        assert(views.subrange(0, parts.len() as int) =~= views);
    }
    out
}

/// Joins the text items of `value`, with the text of `separator` (or nothing)
/// between each two neighbours.
pub fn join_values(value: Value, separator: Option<Value>) -> (r: Result<Value, Error>)
    ensures
        result_model(r) == match join_items_model(deep(value)) {
            Ok(parts) => join_with_model(parts, opt_deep(separator)),
            Err(m) => Err(m),
        },
{
    let parts = match text_items(value) {
        Ok(parts) => parts,
        Err(e) => return Err(e),
    };
    join_with(&parts, separator)
}

/// Joins `parts` with the text of `separator`, or with nothing.
pub fn join_with(parts: &Vec<String>, separator: Option<Value>) -> (r: Result<Value, Error>)
    ensures
        result_model(r) == join_with_model(parts@.map_values(|s: String| s@), opt_deep(separator)),
{
    let sep: String = match separator {
        None => String::new(),
        Some(s) => match s.try_bytes() {
            Ok(t) => t,
            Err(m) => return Err(Error::TypeMismatch(m)),
        },
    };
    Ok(Value::Bytes(join_strings(parts, sep.as_str())))
}

} // verus!
