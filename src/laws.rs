//! What holds of every use of the wrap engine.
use vstd::prelude::*;
use crate::attrs::{option_index, Attribute};
use crate::block::{attr_kind, kind_index};
use crate::method::{method_error, transformed, wrap_error, Body, GraphQLAttrMacroType, Method, MethodError};
use crate::types::{is_container, is_optional, Marker, TypeTree};
use crate::wrap::{has_type_arg, last_segment, names_container, type_arg, wraps, WrapError};

verus! {

/// `r` is `t` with wrapper nodes inserted and nothing else changed: every
/// name, length, lifetime and argument of `t` stands in `r` in its place.
pub open spec fn only_inserts(t: TypeTree, r: TypeTree) -> bool
    decreases t, r,
{
    if r == t {
        true
    } else if r is Wrapped && only_inserts(t, *r->Wrapped_1) {
        true
    } else {
        match t {
            TypeTree::Array { elem, len } => r is Array && r->len == len && only_inserts(
                *elem,
                *r->Array_elem,
            ),
            TypeTree::Slice(elem) => r is Slice && only_inserts(*elem, *r->Slice_0),
            TypeTree::Paren(elem) => r is Paren && only_inserts(*elem, *r->Paren_0),
            TypeTree::Reference { elem, lifetime, mutable } => {
                &&& r is Reference
                &&& r->lifetime == lifetime
                &&& r->mutable == mutable
                &&& only_inserts(*elem, *r->Reference_elem)
            },
            TypeTree::Path(p) => {
                &&& r is Path
                &&& p.segments@.len() > 0
                &&& {
                    let q = r->Path_0;
                    let last = p.segments@.len() - 1;
                    let seg = last_segment(p);
                    let qseg = q.segments@[last];
                    &&& q.global == p.global
                    &&& q.segments@.len() == p.segments@.len()
                    &&& q.segments@ == p.segments@.update(last, qseg)
                    &&& qseg.ident == seg.ident
                    &&& has_type_arg(seg)
                    &&& has_type_arg(qseg)
                    &&& qseg.args->Angle_0@ == seg.args->Angle_0@.update(0, qseg.args->Angle_0@[0])
                    &&& only_inserts(type_arg(seg), type_arg(qseg))
                }
            },
            _ => false,
        }
    }
}

/// A path that names no recognized container.
pub open spec fn is_plain_name(t: TypeTree) -> bool {
    t is Path && t->Path_0.segments@.len() > 0 && !names_container(t->Path_0)
}

/// Wrapping only inserts wrapper nodes: it never renames, reorders or drops
/// a name, an argument or any other part of the type.
pub proof fn lemma_wrap_only_inserts(t: TypeTree, strict: bool, needs: bool, r: TypeTree)
    requires
        wraps(t, strict, needs, Ok(r)),
    ensures
        only_inserts(t, r),
    decreases t,
{
    let c = if needs {
        *r->Wrapped_1
    } else {
        r
    };
    match t {
        TypeTree::Array { elem, .. } => lemma_wrap_only_inserts(*elem, strict, true, *c->Array_elem),
        TypeTree::Slice(elem) => lemma_wrap_only_inserts(*elem, strict, true, *c->Slice_0),
        TypeTree::Paren(elem) => lemma_wrap_only_inserts(*elem, strict, false, *c->Paren_0),
        TypeTree::Reference { elem, .. } => lemma_wrap_only_inserts(
            *elem,
            strict,
            false,
            *c->Reference_elem,
        ),
        TypeTree::Path(p) => {
            if is_container(last_segment(p).ident@) {
                let seg = last_segment(p);
                let qseg = c->Path_0.segments@[p.segments@.len() - 1];
                lemma_wrap_only_inserts(
                    type_arg(seg),
                    strict,
                    crate::wrap::inner_needs(seg.ident@, strict),
                    type_arg(qseg),
                );
            }
        },
        _ => {},
    }
    assert(only_inserts(t, c));
}

/// Outside strict mode a list-like container `C<X>` becomes
/// `SemanticNonNull<C<SemanticNonNull<X'>>>`: the container and its element
/// are both marked, where `X'` is `X` wrapped in turn, and `X` itself when it
/// is a plain name.
pub proof fn lemma_list_marks_container_and_element(t: TypeTree, r: TypeTree)
    requires
        t is Path,
        names_container(t->Path_0),
        !is_optional(last_segment(t->Path_0).ident@),
        wraps(t, false, true, Ok(r)),
    ensures
        r is Wrapped,
        r->Wrapped_0 == Marker::Semantic,
        ({
            let q = (*r->Wrapped_1)->Path_0;
            let x = type_arg(last_segment(t->Path_0));
            let y = type_arg(last_segment(q));
            &&& *r->Wrapped_1 is Path
            &&& last_segment(q).ident == last_segment(t->Path_0).ident
            &&& y is Wrapped
            &&& y->Wrapped_0 == Marker::Semantic
            &&& wraps(x, false, false, Ok(*y->Wrapped_1))
            &&& is_plain_name(x) ==> *y->Wrapped_1 == x
        }),
{
    reveal_with_fuel(wraps, 3);
}

/// Outside strict mode `Option<X>` (or `Result<X, E>`) becomes
/// `SemanticNonNull<Option<X'>>`: the argument's own position is left
/// unmarked, where `X'` is `X` wrapped in turn, and `X` itself when it is a
/// plain name.
pub proof fn lemma_optional_keeps_argument(t: TypeTree, r: TypeTree)
    requires
        t is Path,
        names_container(t->Path_0),
        is_optional(last_segment(t->Path_0).ident@),
        wraps(t, false, true, Ok(r)),
    ensures
        r is Wrapped,
        r->Wrapped_0 == Marker::Semantic,
        ({
            let q = (*r->Wrapped_1)->Path_0;
            let x = type_arg(last_segment(t->Path_0));
            let y = type_arg(last_segment(q));
            &&& *r->Wrapped_1 is Path
            &&& last_segment(q).ident == last_segment(t->Path_0).ident
            &&& wraps(x, false, false, Ok(y))
            &&& is_plain_name(x) ==> y == x
        }),
{
    reveal_with_fuel(wraps, 3);
}

/// In strict mode `Option<X>` becomes `StrictNonNull<Option<StrictNonNull<X'>>>`:
/// both positions are asserted non-null, where `X'` is `X` wrapped in turn,
/// and `X` itself when it is a plain name.
pub proof fn lemma_strict_optional_marks_both(t: TypeTree, r: TypeTree)
    requires
        t is Path,
        names_container(t->Path_0),
        is_optional(last_segment(t->Path_0).ident@),
        wraps(t, true, true, Ok(r)),
    ensures
        r is Wrapped,
        r->Wrapped_0 == Marker::Strict,
        ({
            let q = (*r->Wrapped_1)->Path_0;
            let x = type_arg(last_segment(t->Path_0));
            let y = type_arg(last_segment(q));
            &&& *r->Wrapped_1 is Path
            &&& last_segment(q).ident == last_segment(t->Path_0).ident
            &&& y is Wrapped
            &&& y->Wrapped_0 == Marker::Strict
            &&& wraps(x, true, false, Ok(*y->Wrapped_1))
            &&& is_plain_name(x) ==> *y->Wrapped_1 == x
        }),
{
    reveal_with_fuel(wraps, 3);
}

/// A method that declares no result type and has no option annotation is
/// left exactly as written, and no error is reported for it.
pub proof fn lemma_untyped_method_untouched<B>(m: Method<B>, kind: GraphQLAttrMacroType, out: Method<Body<B>>)
    requires
        m.output is None,
        option_index(m.attrs@, 0) is None,
        transformed(m, kind, out),
    ensures
        out.attrs@ == m.attrs@,
        out.output is None,
        out.body == Body::Unchanged(m.body),
        method_error(m, kind) is None,
{
}

proof fn lemma_kind_index_at_most(attrs: Seq<Attribute>, from: int, i: int)
    requires
        0 <= from <= i < attrs.len(),
        attr_kind(attrs[i]) is Some,
    ensures
        kind_index(attrs, from) is Some,
        from <= kind_index(attrs, from)->0 <= i,
    decreases i - from,
{
    if attr_kind(attrs[from]) is None {
        lemma_kind_index_at_most(attrs, from + 1, i);
    }
}

/// An impl block with two schema annotations, at `i` and `j`, is a conflict:
/// the first schema annotation is followed by another one, so the pass
/// reports that single error and rewrites nothing.
pub proof fn lemma_two_annotations_conflict(attrs: Seq<Attribute>, i: int, j: int)
    requires
        0 <= i < j < attrs.len(),
        attr_kind(attrs[i]) is Some,
        attr_kind(attrs[j]) is Some,
    ensures
        kind_index(attrs, 0) is Some,
        kind_index(attrs, kind_index(attrs, 0)->0 + 1) is Some,
{
    lemma_kind_index_at_most(attrs, 0, i);
    let k = kind_index(attrs, 0)->0;
    lemma_kind_index_at_most(attrs, k + 1, j);
}

/// A recognized container written without angle-bracketed arguments is an
/// error that names the container, and so is the method that returns it.
pub proof fn lemma_container_without_arguments<B>(m: Method<B>, kind: GraphQLAttrMacroType, strict: bool)
    requires
        m.output is Some,
        m.output->0 is Path,
        names_container(m.output->0->Path_0),
        !(last_segment(m.output->0->Path_0).args is Angle),
        option_index(m.attrs@, 0) is None,
    ensures
        wrap_error(m.output->0, strict) == Some(WrapError::NoAngleArgs(last_segment(m.output->0->Path_0).ident)),
        method_error(m, kind) == Some(
            MethodError::Wrap(WrapError::NoAngleArgs(last_segment(m.output->0->Path_0).ident)),
        ),
{
}

} // verus!
