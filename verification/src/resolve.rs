//! One-hop resolution of an operation's shape references against the
//! shapes table.
//!
//! Resolution replaces the input reference, the optional output reference,
//! and each error reference by the shape it names — exactly one hop deep,
//! so member references inside a resolved structure stay references and a
//! cyclic shape graph causes no unbounded expansion. It borrows from the
//! operation and the table and mutates neither.

use vstd::prelude::*;

use crate::errors::UnresolvedShapeError;
use crate::http_binding::HttpBindings;
use crate::markdown::Markdown;
use crate::model::Operation;
use crate::model::Shape;
use crate::model::ShapeReference;
use crate::string_map::StringMap;

verus! {

/// An operation whose references have been replaced, one hop deep, by the
/// shapes they name. Transient: it borrows from the operation and the
/// table and owns nothing of the model.
#[derive(Debug, PartialEq)]
pub struct ResolvedOperation<'a> {
    pub name: &'a String,
    pub http: &'a HttpBindings,
    pub input: &'a Shape,
    pub output: Option<&'a Shape>,
    pub errors: Vec<&'a Shape>,
    pub documentation: &'a Markdown,
}

/// The first reference in `refs` that names no key of `m`, if any.
pub open spec fn first_missing(refs: Seq<ShapeReference>, m: Map<Seq<char>, Shape>) -> Option<
    Seq<char>,
>
    decreases refs.len(),
{
    if refs.len() == 0 {
        None
    } else if !m.contains_key(refs.first().shape@) {
        Some(refs.first().shape@)
    } else {
        first_missing(refs.drop_first(), m)
    }
}

/// The key that resolution reports as unresolved, if any: the input
/// reference is checked first, then the output reference, then each error
/// reference in order.
pub open spec fn unresolved_key(op: Operation, m: Map<Seq<char>, Shape>) -> Option<Seq<char>> {
    if !m.contains_key(op.input.shape@) {
        Some(op.input.shape@)
    } else {
        match op.output {
            Some(o) => if !m.contains_key(o.shape@) {
                Some(o.shape@)
            } else {
                first_missing(op.errors@, m)
            },
            None => first_missing(op.errors@, m),
        }
    }
}

/// Law: a reference list has no missing key exactly when every one of its
/// references names a key of the table.
pub proof fn lemma_first_missing_none(refs: Seq<ShapeReference>, m: Map<Seq<char>, Shape>)
    ensures
        first_missing(refs, m) is None <==> (forall|i: int|
            0 <= i < refs.len() ==> m.contains_key(#[trigger] refs[i].shape@)),
    decreases refs.len(),
{
    if refs.len() > 0 && m.contains_key(refs.first().shape@) {
        lemma_first_missing_none(refs.drop_first(), m);
        assert forall|i: int|
            0 <= i < refs.len() && (forall|j: int|
                0 <= j < refs.drop_first().len() ==> m.contains_key(
                    #[trigger] refs.drop_first()[j].shape@,
                )) implies m.contains_key(#[trigger] refs[i].shape@) by {
            if i > 0 {
                assert(refs[i] == refs.drop_first()[i - 1]);
            }
        }
    }
}

/// Law: resolution succeeds exactly when the input key, the output key
/// (when an output reference is present), and every error key are in the
/// table.
pub proof fn lemma_resolution_total(op: Operation, m: Map<Seq<char>, Shape>)
    ensures
        unresolved_key(op, m) is None <==> {
            &&& m.contains_key(op.input.shape@)
            &&& (op.output matches Some(o) ==> m.contains_key(o.shape@))
            &&& forall|i: int|
                0 <= i < op.errors@.len() ==> m.contains_key(#[trigger] op.errors@[i].shape@)
        },
{
    lemma_first_missing_none(op.errors@, m);
}

/// Replaces the operation's shape references by the shapes they name, one
/// hop deep; fails with the first missing key, checking the input
/// reference, then the output reference, then each error reference in
/// order. Reads the table and builds a new value; nothing is mutated.
pub fn resolve<'a>(op: &'a Operation, shapes: &'a StringMap<Shape>) -> (r: Result<
    ResolvedOperation<'a>,
    UnresolvedShapeError,
>)
    ensures
        match r {
            Ok(res) => {
                &&& unresolved_key(*op, shapes@) is None
                &&& *res.name == op.name
                &&& *res.http == op.http
                &&& *res.documentation == op.documentation
                &&& shapes@.contains_key(op.input.shape@)
                &&& *res.input == shapes@[op.input.shape@]
                &&& match op.output {
                    Some(o) => res.output matches Some(s) && shapes@.contains_key(o.shape@)
                        && *s == shapes@[o.shape@],
                    None => res.output is None,
                }
                &&& res.errors@.len() == op.errors@.len()
                &&& forall|i: int|
                    0 <= i < op.errors@.len() ==> shapes@.contains_key(
                        #[trigger] op.errors@[i].shape@,
                    ) && *res.errors@[i] == shapes@[op.errors@[i].shape@]
            },
            Err(e) => unresolved_key(*op, shapes@) == Some(e.key@),
        },
{
    let input_shape = match shapes.get(op.input.shape.as_str()) {
        Some(s) => s,
        None => {
            return Err(UnresolvedShapeError { key: op.input.shape.clone() });
        },
    };
    let output_shape: Option<&Shape> = match &op.output {
        Some(o) => match shapes.get(o.shape.as_str()) {
            Some(s) => Some(s),
            None => {
                return Err(UnresolvedShapeError { key: o.shape.clone() });
            },
        },
        None => None,
    };
    let n = op.errors.len();
    let mut error_shapes: Vec<&'a Shape> = Vec::new();
    let mut i: usize = 0;
    proof {
        assert(op.errors@.subrange(0, n as int) =~= op.errors@);
    }
    while i < n
        invariant
            i <= n,
            n == op.errors@.len(),
            shapes@.contains_key(op.input.shape@),
            op.output matches Some(o) ==> shapes@.contains_key(o.shape@),
            first_missing(op.errors@, shapes@) == first_missing(
                op.errors@.subrange(i as int, n as int),
                shapes@,
            ),
            error_shapes@.len() == i,
            forall|j: int|
                0 <= j < i ==> shapes@.contains_key(#[trigger] op.errors@[j].shape@)
                    && *error_shapes@[j] == shapes@[op.errors@[j].shape@],
        decreases n - i,
    {
        proof {
            assert(op.errors@.subrange(i as int, n as int).first() == op.errors@[i as int]);
            assert(op.errors@.subrange(i as int, n as int).drop_first() =~= op.errors@.subrange(
                i as int + 1,
                n as int,
            ));
        }
        match shapes.get(op.errors[i].shape.as_str()) {
            Some(s) => {
                error_shapes.push(s);
            },
            None => {
                return Err(UnresolvedShapeError { key: op.errors[i].shape.clone() });
            },
        }
        i += 1;
    }
    Ok(
        ResolvedOperation {
            name: &op.name,
            http: &op.http,
            input: input_shape,
            output: output_shape,
            errors: error_shapes,
            documentation: &op.documentation,
        },
    )
}

} // verus!
