use vstd::prelude::*;
use crate::error::{error_message, Error};
use crate::expression::{children, eval, type_of, Expr};
use crate::join::{all_text_models, join_spec, model_texts};
use crate::value::Model;
use crate::common_log::{entries_model, field_name, log_model};

verus! {

/// Joining the texts `parts` puts `sep` between each two neighbours: the
/// join of the parts with one more part `p` is the join of the parts, then
/// `sep`, then `p`; and the join of a single part is that part.
pub proof fn lemma_join_appends(parts: Seq<Seq<char>>, sep: Seq<char>, p: Seq<char>)
    ensures
        parts.len() > 0 ==> join_spec(parts.push(p), sep) == join_spec(parts, sep) + sep + p,
        join_spec(seq![p], sep) == p,
{
    assert(parts.push(p).drop_last() =~= parts);
}

/// A `join` call whose array holds only texts and whose separator (if any)
/// is a text gives the texts joined with that separator, or with nothing.
pub proof fn lemma_join_result(e: Expr, items: Seq<Model>, sep: Seq<char>)
    requires
        e is Join,
        eval(*e->Join_0.value) == Ok::<Model, Seq<char>>(Model::Array(items)),
        all_text_models(items),
        match e->Join_0.separator {
            Some(s) => eval(*s) == Ok::<Model, Seq<char>>(Model::Bytes(sep)),
            None => sep == Seq::<char>::empty(),
        },
    ensures
        eval(e) == Ok::<Model, Seq<char>>(Model::Bytes(join_spec(model_texts(items), sep))),
{
}

/// Joining an empty array gives the empty text, with or without a
/// separator.
pub proof fn lemma_join_empty(e: Expr, sep: Seq<char>)
    requires
        e is Join,
        eval(*e->Join_0.value) == Ok::<Model, Seq<char>>(Model::Array(Seq::empty())),
        match e->Join_0.separator {
            Some(s) => eval(*s) == Ok::<Model, Seq<char>>(Model::Bytes(sep)),
            None => true,
        },
    ensures
        eval(e) == Ok::<Model, Seq<char>>(Model::Bytes(Seq::empty())),
{
    assert(model_texts(Seq::<Model>::empty()).len() == 0);
}

/// A `join` call without a separator gives what the same call with an
/// empty-text separator gives.
pub proof fn lemma_join_default_separator(without: Expr, with: Expr)
    requires
        without is Join,
        with is Join,
        without->Join_0.value == with->Join_0.value,
        without->Join_0.separator is None,
        with->Join_0.separator is Some,
        eval(*with->Join_0.separator->Some_0) == Ok::<Model, Seq<char>>(Model::Bytes(Seq::empty())),
    ensures
        eval(without) == eval(with),
{
}

/// An array with an item that is not text makes `join` fail with the fixed
/// message, wherever that item stands and whatever the separator.
pub proof fn lemma_join_non_text_item(e: Expr, items: Seq<Model>, i: int)
    requires
        e is Join,
        eval(*e->Join_0.value) == Ok::<Model, Seq<char>>(Model::Array(items)),
        0 <= i < items.len(),
        !(items[i] is Bytes),
    ensures
        eval(e) == Err::<Model, Seq<char>>(error_message(Error::NonStringItem)),
        error_message(Error::NonStringItem) == "function call error: "@ + "all array items must be strings"@,
{
}

/// Type inference never hides a failure: an expression with a fallible
/// child is itself fallible.
pub proof fn lemma_fallible_child(e: Expr, i: int)
    requires
        0 <= i < children(e).len(),
        type_of(children(e)[i]).fallible,
    ensures
        type_of(e).fallible,
{
}

proof fn lemma_field_names_distinct(i: int, j: int)
    requires
        0 <= i < j < 10,
    ensures
        field_name(i) != field_name(j),
{
    reveal_strlit("host");
    reveal_strlit("identity");
    reveal_strlit("user");
    reveal_strlit("timestamp");
    reveal_strlit("message");
    reveal_strlit("method");
    reveal_strlit("path");
    reveal_strlit("protocol");
    reveal_strlit("status");
    reveal_strlit("size");
    assert(field_name(i)[0] != field_name(j)[0] || field_name(i)[1] != field_name(j)[1]
        || field_name(i).len() != field_name(j).len());
}

proof fn lemma_entries_keys(c: Seq<Option<Seq<char>>>, format: Seq<char>, n: int)
    requires
        0 <= n <= 10,
    ensures
        forall|k: int|
            0 <= k < entries_model(c, format, n).len() ==> exists|i: int|
                0 <= i < n && #[trigger] entries_model(c, format, n)[k].0 == field_name(i),
        forall|a: int, b: int|
            0 <= a < b < entries_model(c, format, n).len() ==> #[trigger] entries_model(c, format, n)[a].0
                != #[trigger] entries_model(c, format, n)[b].0,
    decreases n,
{
    if n > 0 {
        lemma_entries_keys(c, format, n - 1);
        let prev = entries_model(c, format, n - 1);
        let cur = entries_model(c, format, n);
        if c[n - 1] is Some {
            assert forall|k: int| 0 <= k < prev.len() implies cur[k].0 != field_name(n - 1) by {
                let i = choose|i: int| 0 <= i < n - 1 && #[trigger] prev[k].0 == field_name(i);
                assert(cur[k] == prev[k]);
                lemma_field_names_distinct(i, n - 1);
            }
            assert forall|k: int| 0 <= k < cur.len() implies exists|i: int|
                0 <= i < n && #[trigger] cur[k].0 == field_name(i) by {
                if k < prev.len() {
                    assert(cur[k] == prev[k]);
                    let i = choose|i: int| 0 <= i < n - 1 && #[trigger] prev[k].0 == field_name(i);
                    assert(cur[k].0 == field_name(i));
                } else {
                    assert(cur[k].0 == field_name(n - 1));
                }
            }
            assert forall|a: int, b: int| 0 <= a < b < cur.len() implies #[trigger] cur[a].0
                != #[trigger] cur[b].0 by {
                assert(cur[a] == prev[a]);
                if b < prev.len() {
                    assert(cur[b] == prev[b]);
                }
            }
        } else {
            assert forall|k: int| 0 <= k < cur.len() implies exists|i: int|
                0 <= i < n && #[trigger] cur[k].0 == field_name(i) by {
                let i = choose|i: int| 0 <= i < n - 1 && #[trigger] prev[k].0 == field_name(i);
                assert(cur[k].0 == field_name(i));
            }
        }
    }
}

/// The map built from a common log line never holds a key twice.
pub proof fn lemma_log_keys_distinct(c: Seq<Option<Seq<char>>>, format: Seq<char>)
    requires
        log_model(c, format) is Ok,
    ensures
        log_model(c, format)->Ok_0 is Record,
        forall|a: int, b: int|
            0 <= a < b < log_model(c, format)->Ok_0->Record_0.len() ==> #[trigger] log_model(c, format)->Ok_0->Record_0[a].0
                != #[trigger] log_model(c, format)->Ok_0->Record_0[b].0,
{
    lemma_entries_keys(c, format, 10);
}

} // verus!
