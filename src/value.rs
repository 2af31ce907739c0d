use vstd::prelude::*;

verus! {

broadcast use vstd::std_specs::vec::group_vec_axioms;

/// A point in time, held as whole seconds since the Unix epoch (UTC) and
/// the nanoseconds past that second.
#[derive(Clone, Copy, Debug, PartialEq, Eq, Structural)]
pub struct Timestamp {
    pub secs: i64,
    pub nanos: u32,
}

/// The runtime value of every expression. `Bytes` holds text as UTF-8.
/// A `Record` (a map from key to value) keeps its entries in insertion order.
#[derive(Debug)]
pub enum Value {
    Bytes(String),
    Integer(i64),
    Boolean(bool),
    Timestamp(Timestamp),
    Array(Vec<Value>),
    Record(Vec<(String, Value)>),
    Null,
}

/// The mathematical content of a value: text as characters, collections as
/// sequences.
pub enum Model {
    Bytes(Seq<char>),
    Integer(i64),
    Boolean(bool),
    Timestamp(Timestamp),
    Array(Seq<Model>),
    Record(Seq<(Seq<char>, Model)>),
    Null,
}

/// The content of a value.
pub open spec fn deep(v: Value) -> Model
    decreases v, 1nat,
{
    match v {
        Value::Bytes(s) => Model::Bytes(s@),
        Value::Integer(i) => Model::Integer(i),
        Value::Boolean(b) => Model::Boolean(b),
        Value::Timestamp(t) => Model::Timestamp(t),
        Value::Array(items) => Model::Array(deep_items(v, items@.len() as int)),
        Value::Record(entries) => Model::Record(deep_entries(v, entries@.len() as int)),
        Value::Null => Model::Null,
    }
}

/// The contents of the first `n` items of the array `v`.
pub open spec fn deep_items(v: Value, n: int) -> Seq<Model>
    decreases v, 0nat, n,
{
    if v is Array && 0 < n <= v->Array_0@.len() {
        deep_items(v, n - 1).push(deep(v->Array_0@[n - 1]))
    } else {
        Seq::empty()
    }
}

/// The contents of the first `n` entries of the map `v`.
pub open spec fn deep_entries(v: Value, n: int) -> Seq<(Seq<char>, Model)>
    decreases v, 0nat, n,
{
    if v is Record && 0 < n <= v->Record_0@.len() {
        deep_entries(v, n - 1).push((v->Record_0@[n - 1].0@, deep(v->Record_0@[n - 1].1)))
    } else {
        Seq::empty()
    }
}

/// The text that decoding `bytes` as UTF-8 gives, each invalid sequence
/// replaced by U+FFFD.
pub uninterp spec fn utf8_lossy(bytes: Seq<u8>) -> Seq<char>;

/// Relies on `String::from_utf8_lossy`: the text depends on the bytes alone.
#[verifier::external_body]
fn decode_utf8_lossy(bytes: &[u8]) -> (r: String)
    ensures
        r@ == utf8_lossy(bytes@),
{
    String::from_utf8_lossy(bytes).into_owned()
}

/// The variant a value has, without its payload.
#[derive(Clone, Copy, Debug, PartialEq, Eq, Structural)]
pub enum ValueKind {
    Bytes,
    Integer,
    Boolean,
    Timestamp,
    Array,
    Record,
    Null,
}

/// Why a narrowing accessor refused a value.
#[derive(Clone, Copy, Debug, PartialEq, Eq, Structural)]
pub struct KindMismatch {
    pub expected: ValueKind,
    pub got: ValueKind,
}

pub open spec fn kind_of(v: Value) -> ValueKind {
    match v {
        Value::Bytes(_) => ValueKind::Bytes,
        Value::Integer(_) => ValueKind::Integer,
        Value::Boolean(_) => ValueKind::Boolean,
        Value::Timestamp(_) => ValueKind::Timestamp,
        Value::Array(_) => ValueKind::Array,
        Value::Record(_) => ValueKind::Record,
        Value::Null => ValueKind::Null,
    }
}

proof fn lemma_array_item_decreases(v: Value, i: int)
    requires
        v is Array,
        0 <= i < v->Array_0@.len(),
    ensures
        decreases_to!(v => v->Array_0[i]),
{
    assert(decreases_to!(v => v->Array_0));
}

proof fn lemma_record_item_decreases(v: Value, i: int)
    requires
        v is Record,
        0 <= i < v->Record_0@.len(),
    ensures
        decreases_to!(v => v->Record_0[i].1),
{
    assert(decreases_to!(v => v->Record_0));
    assert(decreases_to!(v->Record_0 => v->Record_0[i]));
}

pub open spec fn model_kind(m: Model) -> ValueKind {
    match m {
        Model::Bytes(_) => ValueKind::Bytes,
        Model::Integer(_) => ValueKind::Integer,
        Model::Boolean(_) => ValueKind::Boolean,
        Model::Timestamp(_) => ValueKind::Timestamp,
        Model::Array(_) => ValueKind::Array,
        Model::Record(_) => ValueKind::Record,
        Model::Null => ValueKind::Null,
    }
}

/// The content of the first `n` items of an array, item by item.
pub proof fn lemma_deep_items(v: Value, n: int)
    requires
        v is Array,
        0 <= n <= v->Array_0@.len(),
    ensures
        deep_items(v, n).len() == n,
        forall|j: int| 0 <= j < n ==> #[trigger] deep_items(v, n)[j] == deep(v->Array_0@[j]),
    decreases n,
{
    if n > 0 {
        lemma_deep_items(v, n - 1);
    }
}

proof fn lemma_items_agree(a: Value, b: Value, n: int)
    requires
        a is Array && b is Array,
        0 <= n <= a->Array_0@.len(),
        n <= b->Array_0@.len(),
        forall|j: int| 0 <= j < n ==> deep(#[trigger] a->Array_0@[j]) == deep(b->Array_0@[j]),
    ensures
        deep_items(a, n) == deep_items(b, n),
    decreases n,
{
    if n > 0 {
        lemma_items_agree(a, b, n - 1);
    }
}

pub proof fn lemma_entries_agree(a: Value, b: Value, n: int)
    requires
        a is Record && b is Record,
        0 <= n <= a->Record_0@.len(),
        n <= b->Record_0@.len(),
        forall|j: int|
            0 <= j < n ==> (#[trigger] a->Record_0@[j]).0@ == b->Record_0@[j].0@ && deep(a->Record_0@[j].1)
                == deep(b->Record_0@[j].1),
    ensures
        deep_entries(a, n) == deep_entries(b, n),
    decreases n,
{
    if n > 0 {
        lemma_entries_agree(a, b, n - 1);
    }
}

impl Value {
    pub fn kind(&self) -> (r: ValueKind)
        ensures
            r == kind_of(*self),
    {
        match self {
            Value::Bytes(_) => ValueKind::Bytes,
            Value::Integer(_) => ValueKind::Integer,
            Value::Boolean(_) => ValueKind::Boolean,
            Value::Timestamp(_) => ValueKind::Timestamp,
            Value::Array(_) => ValueKind::Array,
            Value::Record(_) => ValueKind::Record,
            Value::Null => ValueKind::Null,
        }
    }

    /// A copy of the whole tree, with the same content.
    pub fn duplicate(&self) -> (r: Value)
        ensures
            deep(r) == deep(*self),
            kind_of(r) == kind_of(*self),
            !(self is Array || self is Record) ==> r == *self,
            self is Array ==> r->Array_0@.len() == self->Array_0@.len(),
            self is Record ==> r->Record_0@.len() == self->Record_0@.len(),
        decreases self,
    {
        match self {
            Value::Bytes(s) => Value::Bytes(s.clone()),
            Value::Integer(i) => Value::Integer(*i),
            Value::Boolean(b) => Value::Boolean(*b),
            Value::Timestamp(t) => Value::Timestamp(*t),
            Value::Null => Value::Null,
            Value::Array(items) => {
                let mut out: Vec<Value> = Vec::new();
                let mut i: usize = 0;
                while i < items.len()
                    invariant
                        i <= items.len(),
                        out@.len() == i,
                        forall|j: int| 0 <= j < i ==> deep(#[trigger] out@[j]) == deep(items@[j]),
                        self is Array,
                        *items == self->Array_0,
                    decreases items.len() - i,
                {
                    proof {
                        lemma_array_item_decreases(*self, i as int);
                    }
                    out.push(items[i].duplicate());
                    i = i + 1;
                }
                proof {
                    lemma_items_agree(Value::Array(out), *self, i as int);
                }
                Value::Array(out)
            },
            Value::Record(entries) => {
                let mut out: Vec<(String, Value)> = Vec::new();
                let mut i: usize = 0;
                while i < entries.len()
                    invariant
                        i <= entries.len(),
                        out@.len() == i,
                        forall|j: int|
                            0 <= j < i ==> (#[trigger] out@[j]).0@ == entries@[j].0@ && deep(out@[j].1)
                                == deep(entries@[j].1),
                        self is Record,
                        *entries == self->Record_0,
                    decreases entries.len() - i,
                {
                    proof {
                        lemma_record_item_decreases(*self, i as int);
                    }
                    let entry = &entries[i];
                    out.push((entry.0.clone(), entry.1.duplicate()));
                    i = i + 1;
                }
                proof {
                    lemma_entries_agree(Value::Record(out), *self, i as int);
                }
                Value::Record(out)
            },
        }
    }

    /// A text value from raw bytes; bytes that are not UTF-8 are replaced,
    /// so the text may differ from the input.
    pub fn from_utf8_lossy(bytes: &[u8]) -> (r: Value)
        ensures
            r is Bytes,
            r->Bytes_0@ == utf8_lossy(bytes@),
    {
        Value::Bytes(decode_utf8_lossy(bytes))
    }

    /// The text of a `Bytes` value, or the mismatch. Text is held decoded,
    /// so this is `try_bytes`: the lossy step happened in `from_utf8_lossy`.
    pub fn try_bytes_utf8_lossy(self) -> (r: Result<String, KindMismatch>)
        ensures
            match self {
                Value::Bytes(s) => r == Ok::<String, KindMismatch>(s),
                _ => r == Err::<String, KindMismatch>(KindMismatch { expected: ValueKind::Bytes, got: kind_of(self) }),
            },
    {
        self.try_bytes()
    }

    /// The text of a `Bytes` value, or the mismatch.
    pub fn try_bytes(self) -> (r: Result<String, KindMismatch>)
        ensures
            match self {
                Value::Bytes(s) => r == Ok::<String, KindMismatch>(s),
                _ => r == Err::<String, KindMismatch>(KindMismatch { expected: ValueKind::Bytes, got: kind_of(self) }),
            },
    {
        let got = self.kind();
        match self {
            Value::Bytes(s) => Ok(s),
            _ => Err(KindMismatch { expected: ValueKind::Bytes, got }),
        }
    }

    /// The items of an `Array` value, or the mismatch.
    pub fn try_array(self) -> (r: Result<Vec<Value>, KindMismatch>)
        ensures
            match self {
                Value::Array(a) => r == Ok::<Vec<Value>, KindMismatch>(a),
                _ => r == Err::<Vec<Value>, KindMismatch>(KindMismatch { expected: ValueKind::Array, got: kind_of(self) }),
            },
    {
        let got = self.kind();
        match self {
            Value::Array(a) => Ok(a),
            _ => Err(KindMismatch { expected: ValueKind::Array, got }),
        }
    }
}

} // verus!
