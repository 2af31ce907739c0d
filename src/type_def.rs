use vstd::prelude::*;
use crate::value::ValueKind;

verus! {

/// A set of value variants: those an expression may produce.
#[derive(Clone, Copy, Debug, PartialEq, Eq, Structural)]
pub struct Kind {
    pub bytes: bool,
    pub integer: bool,
    pub boolean: bool,
    pub timestamp: bool,
    pub array: bool,
    pub record: bool,
    pub null: bool,
}

pub open spec fn kind_has(k: Kind, v: ValueKind) -> bool {
    match v {
        ValueKind::Bytes => k.bytes,
        ValueKind::Integer => k.integer,
        ValueKind::Boolean => k.boolean,
        ValueKind::Timestamp => k.timestamp,
        ValueKind::Array => k.array,
        ValueKind::Record => k.record,
        ValueKind::Null => k.null,
    }
}

pub open spec fn kind_subset(a: Kind, b: Kind) -> bool {
    forall|v: ValueKind| kind_has(a, v) ==> kind_has(b, v)
}

pub open spec fn kind_single(v: ValueKind) -> Kind {
    Kind {
        bytes: v == ValueKind::Bytes,
        integer: v == ValueKind::Integer,
        boolean: v == ValueKind::Boolean,
        timestamp: v == ValueKind::Timestamp,
        array: v == ValueKind::Array,
        record: v == ValueKind::Record,
        null: v == ValueKind::Null,
    }
}

impl Kind {
    /// The set holding exactly one variant.
    pub fn single(v: ValueKind) -> (r: Kind)
        ensures
            r == kind_single(v),
            forall|w: ValueKind| kind_has(r, w) <==> w == v,
    {
        Kind {
            bytes: v == ValueKind::Bytes,
            integer: v == ValueKind::Integer,
            boolean: v == ValueKind::Boolean,
            timestamp: v == ValueKind::Timestamp,
            array: v == ValueKind::Array,
            record: v == ValueKind::Record,
            null: v == ValueKind::Null,
        }
    }

    pub fn contains(&self, v: ValueKind) -> (r: bool)
        ensures
            r == kind_has(*self, v),
    {
        match v {
            ValueKind::Bytes => self.bytes,
            ValueKind::Integer => self.integer,
            ValueKind::Boolean => self.boolean,
            ValueKind::Timestamp => self.timestamp,
            ValueKind::Array => self.array,
            ValueKind::Record => self.record,
            ValueKind::Null => self.null,
        }
    }

    /// Whether every variant of `self` is also in `other`.
    pub fn is_subset_of(&self, other: &Kind) -> (r: bool)
        ensures
            r == kind_subset(*self, *other),
    {
        let r = (!self.bytes || other.bytes) && (!self.integer || other.integer) && (!self.boolean
            || other.boolean) && (!self.timestamp || other.timestamp) && (!self.array
            || other.array) && (!self.record || other.record) && (!self.null || other.null);
        proof {
            if !r {
                if self.bytes && !other.bytes {
                    assert(kind_has(*self, ValueKind::Bytes));
                } else if self.integer && !other.integer {
                    assert(kind_has(*self, ValueKind::Integer));
                } else if self.boolean && !other.boolean {
                    assert(kind_has(*self, ValueKind::Boolean));
                } else if self.timestamp && !other.timestamp {
                    assert(kind_has(*self, ValueKind::Timestamp));
                } else if self.array && !other.array {
                    assert(kind_has(*self, ValueKind::Array));
                } else if self.record && !other.record {
                    assert(kind_has(*self, ValueKind::Record));
                } else {
                    assert(kind_has(*self, ValueKind::Null));
                }
            }
        }
        r
    }
}

/// What is known of an expression before it runs: the variants it may
/// produce, and whether running it may fail.
#[derive(Clone, Copy, Debug, PartialEq, Eq, Structural)]
pub struct TypeDef {
    pub kind: Kind,
    pub fallible: bool,
}

impl TypeDef {
    /// The same descriptor with fallibility set to `fallible`.
    pub fn into_fallible(self, fallible: bool) -> (r: TypeDef)
        ensures
            r.kind == self.kind,
            r.fallible == fallible,
    {
        TypeDef { kind: self.kind, fallible }
    }

    /// Fallible if `self` was, or if `self` may produce a variant outside `safe`.
    pub fn fallible_unless(self, safe: Kind) -> (r: TypeDef)
        ensures
            r.kind == self.kind,
            r.fallible == (self.fallible || !kind_subset(self.kind, safe)),
    {
        let inside = self.kind.is_subset_of(&safe);
        TypeDef { kind: self.kind, fallible: self.fallible || !inside }
    }

    /// The same fallibility, with the produced variants pinned to `kind`.
    pub fn with_constraint(self, kind: Kind) -> (r: TypeDef)
        ensures
            r.kind == kind,
            r.fallible == self.fallible,
    {
        TypeDef { kind, fallible: self.fallible }
    }
}

} // verus!
