//! The raw, already-loaded form of a model document: a tree of plain values.
//!
//! The host is responsible for acquiring the document and handing it over in
//! this form; the decoder walks the tree and builds the typed model from it.

use vstd::prelude::*;

verus! {

/// One node of a raw structured document.
#[derive(Debug, PartialEq)]
pub enum RawValue {
    Null,
    Bool(bool),
    Int(i64),
    /// A number that does not fit `i64`, carried opaquely as its source text.
    Num(String),
    Str(String),
    Arr(Vec<RawValue>),
    Obj(Vec<(String, RawValue)>),
}

/// The value of the first entry named `name`, if any.
pub open spec fn obj_lookup(entries: Seq<(String, RawValue)>, name: Seq<char>) -> Option<RawValue>
    decreases entries.len(),
{
    if entries.len() == 0 {
        None
    } else if entries.first().0@ == name {
        Some(entries.first().1)
    } else {
        obj_lookup(entries.drop_first(), name)
    }
}

/// Appending an entry changes a lookup only for that entry's name, and only
/// when the name was absent: an earlier entry always wins.
pub proof fn lemma_obj_lookup_push(es: Seq<(String, RawValue)>, e: (String, RawValue), k: Seq<char>)
    ensures
        obj_lookup(es.push(e), k) == (if obj_lookup(es, k) is Some {
            obj_lookup(es, k)
        } else if e.0@ == k {
            Some(e.1)
        } else {
            Option::<RawValue>::None
        }),
    decreases es.len(),
{
    if es.len() == 0 {
        assert(es.push(e).len() == 1);
        assert(es.push(e).first() == e);
        assert(es.push(e).drop_first() =~= Seq::<(String, RawValue)>::empty());
        assert(obj_lookup(es.push(e).drop_first(), k) is None);
        assert(obj_lookup(es, k) is None);
    } else {
        assert(es.push(e).len() == es.len() + 1);
        assert(es.push(e).first() == es.first());
        assert(es.push(e).drop_first() =~= es.drop_first().push(e));
        lemma_obj_lookup_push(es.drop_first(), e, k);
        assert(obj_lookup(es.push(e), k) == (if es.first().0@ == k {
            Some(es.first().1)
        } else {
            obj_lookup(es.drop_first().push(e), k)
        }));
        assert(obj_lookup(es, k) == (if es.first().0@ == k {
            Some(es.first().1)
        } else {
            obj_lookup(es.drop_first(), k)
        }));
    }
}

/// Field lookup on an object node; `None` on every other kind of node.
pub open spec fn field_of(v: RawValue, name: Seq<char>) -> Option<RawValue> {
    match v {
        RawValue::Obj(entries) => obj_lookup(entries@, name),
        _ => None,
    }
}

/// Relies on `str`'s `PartialEq` implementation: two string slices compare
/// equal exactly when they consist of the same characters.
#[verifier::external_body]
pub(crate) fn str_eq(a: &str, b: &str) -> (r: bool)
    ensures
        r == (a@ == b@),
{
    a == b
}

impl RawValue {
    /// Looks up a field of an object node by name.
    pub fn get_field<'a>(&'a self, name: &str) -> (r: Option<&'a RawValue>)
        ensures
            match r {
                Some(f) => field_of(*self, name@) == Some(*f),
                None => field_of(*self, name@) is None,
            },
    {
        match self {
            RawValue::Obj(entries) => {
                let n = entries.len();
                let mut i: usize = 0;
                proof {
                    assert(entries@.subrange(0, n as int) =~= entries@);
                }
                while i < n
                    invariant
                        i <= n,
                        n == entries@.len(),
                        field_of(*self, name@) == obj_lookup(entries@, name@),
                        obj_lookup(entries@, name@) == obj_lookup(
                            entries@.subrange(i as int, n as int),
                            name@,
                        ),
                    decreases n - i,
                {
                    if str_eq(entries[i].0.as_str(), name) {
                        proof {
                            assert(entries@.subrange(i as int, n as int).first() == entries@[i as int]);
                        }
                        return Some(&entries[i].1);
                    }
                    proof {
                        assert(entries@.subrange(i as int, n as int).drop_first() =~= entries@
                            .subrange(i as int + 1, n as int));
                    }
                    i += 1;
                }
                None
            },
            _ => None,
        }
    }
}

/// Structural equality of raw trees, comparing strings by their characters.
pub open spec fn raw_eq(a: RawValue, b: RawValue) -> bool
    decreases a,
{
    match (a, b) {
        (RawValue::Null, RawValue::Null) => true,
        (RawValue::Bool(x), RawValue::Bool(y)) => x == y,
        (RawValue::Int(x), RawValue::Int(y)) => x == y,
        (RawValue::Num(x), RawValue::Num(y)) => x@ == y@,
        (RawValue::Str(x), RawValue::Str(y)) => x@ == y@,
        (RawValue::Arr(x), RawValue::Arr(y)) => x@.len() == y@.len() && (forall|i: int|
            0 <= i < x@.len() ==> raw_eq(#[trigger] x@[i], y@[i])),
        (RawValue::Obj(x), RawValue::Obj(y)) => x@.len() == y@.len() && (forall|i: int|
            0 <= i < x@.len() ==> (#[trigger] x@[i]).0@ == y@[i].0@ && raw_eq(x@[i].1, y@[i].1)),
        _ => false,
    }
}

impl Clone for RawValue {
    /// A deep copy, structurally equal to the original.
    fn clone(&self) -> (r: Self)
        ensures
            raw_eq(r, *self),
        decreases *self,
    {
        match self {
            RawValue::Null => RawValue::Null,
            RawValue::Bool(b) => RawValue::Bool(*b),
            RawValue::Int(n) => RawValue::Int(*n),
            RawValue::Num(s) => RawValue::Num(s.clone()),
            RawValue::Str(s) => RawValue::Str(s.clone()),
            RawValue::Arr(items) => {
                let n = items.len();
                let mut out: Vec<RawValue> = Vec::new();
                let mut i: usize = 0;
                while i < n
                    invariant
                        i <= n,
                        n == items@.len(),
                        *self == RawValue::Arr(*items),
                        out@.len() == i,
                        forall|j: int| 0 <= j < i ==> raw_eq(#[trigger] out@[j], items@[j]),
                    decreases n - i,
                {
                    proof {
                        assert(decreases_to!(*self => (*self)->Arr_0));
                        assert(decreases_to!(*items => items@));
                        assert(decreases_to!(items@ => items@[i as int]));
                    }
                    out.push(items[i].clone());
                    i += 1;
                }
                RawValue::Arr(out)
            },
            RawValue::Obj(entries) => {
                let n = entries.len();
                let mut out: Vec<(String, RawValue)> = Vec::new();
                let mut i: usize = 0;
                while i < n
                    invariant
                        i <= n,
                        n == entries@.len(),
                        *self == RawValue::Obj(*entries),
                        out@.len() == i,
                        forall|j: int| 0 <= j < i ==> (#[trigger] out@[j]).0@ == entries@[j].0@
                            && raw_eq(out@[j].1, entries@[j].1),
                    decreases n - i,
                {
                    proof {
                        assert(decreases_to!(*self => (*self)->Obj_0));
                        assert(decreases_to!(*entries => entries@));
                        assert(decreases_to!(entries@ => entries@[i as int]));
                        assert(decreases_to!(entries@[i as int] => entries@[i as int].1));
                    }
                    out.push((entries[i].0.clone(), entries[i].1.clone()));
                    i += 1;
                }
                RawValue::Obj(out)
            },
        }
    }
}

} // verus!
