//! Copies of type trees.
use vstd::prelude::*;
use crate::types::{Bound, GenericArg, PathArgs, PathType, Segment, TypeTree};

verus! {

/// `a` and `b` are the same tree: equal at every node, with the lists that
/// they hold equal element by element.
pub open spec fn same_tree(a: TypeTree, b: TypeTree) -> bool
    decreases a, 3nat,
{
    match a {
        TypeTree::Path(p) => b is Path && same_path(p, b->Path_0),
        TypeTree::Array { elem, len } => b is Array && b->len == len && same_tree(*elem, *b->Array_elem),
        TypeTree::Slice(elem) => b is Slice && same_tree(*elem, *b->Slice_0),
        TypeTree::Reference { elem, lifetime, mutable } => {
            &&& b is Reference
            &&& b->lifetime == lifetime
            &&& b->mutable == mutable
            &&& same_tree(*elem, *b->Reference_elem)
        },
        TypeTree::Paren(elem) => b is Paren && same_tree(*elem, *b->Paren_0),
        TypeTree::ImplTrait(bounds) => {
            &&& b is ImplTrait
            &&& bounds@.len() == b->ImplTrait_0@.len()
            &&& forall|i: int| 0 <= i < bounds@.len() ==> same_bound(bounds@[i], #[trigger] b->ImplTrait_0@[i])
        },
        TypeTree::Wrapped(m, inner) => b is Wrapped && b->Wrapped_0 == m && same_tree(*inner, *b->Wrapped_1),
        TypeTree::Verbatim(s) => b == a,
    }
}

pub open spec fn same_bound(a: Bound, b: Bound) -> bool
    decreases a, 2nat,
{
    match a {
        Bound::Trait(p) => b is Trait && same_path(p, b->Trait_0),
        Bound::Verbatim(s) => b == a,
    }
}

pub open spec fn same_path(a: PathType, b: PathType) -> bool
    decreases a, 2nat,
{
    &&& a.global == b.global
    &&& a.segments@.len() == b.segments@.len()
    &&& forall|i: int| 0 <= i < a.segments@.len() ==> same_segment(a.segments@[i], #[trigger] b.segments@[i])
}

pub open spec fn same_segment(a: Segment, b: Segment) -> bool
    decreases a, 1nat,
{
    &&& a.ident == b.ident
    &&& match a.args {
        PathArgs::Bare => b.args is Bare,
        PathArgs::Parenthesized(s) => b.args == a.args,
        PathArgs::Angle(list) => {
            &&& b.args is Angle
            &&& list@.len() == b.args->Angle_0@.len()
            &&& forall|i: int| 0 <= i < list@.len() ==> same_arg(list@[i], #[trigger] b.args->Angle_0@[i])
        },
    }
}

pub open spec fn same_arg(a: GenericArg, b: GenericArg) -> bool
    decreases a, 0nat,
{
    match a {
        GenericArg::Type(t) => b is Type && same_tree(t, b->Type_0),
        GenericArg::Assoc(n, t) => b is Assoc && b->Assoc_0 == n && same_tree(t, b->Assoc_1),
        GenericArg::Verbatim(s) => b == a,
    }
}

/// A copy of `t`.
pub fn copy_tree(t: &TypeTree) -> (r: TypeTree)
    ensures
        same_tree(*t, r),
    decreases *t, 3nat,
{
    match t {
        TypeTree::Path(p) => TypeTree::Path(copy_path(p)),
        TypeTree::Array { elem, len } => TypeTree::Array { elem: Box::new(copy_tree(elem)), len: len.clone() },
        TypeTree::Slice(elem) => TypeTree::Slice(Box::new(copy_tree(elem))),
        TypeTree::Reference { elem, lifetime, mutable } => {
            let lt = match lifetime {
                Some(l) => Some(l.clone()),
                None => None,
            };
            TypeTree::Reference { elem: Box::new(copy_tree(elem)), lifetime: lt, mutable: *mutable }
        },
        TypeTree::Paren(elem) => TypeTree::Paren(Box::new(copy_tree(elem))),
        TypeTree::ImplTrait(bounds) => {
            let mut out: Vec<Bound> = Vec::new();
            let mut i: usize = 0;
            while i < bounds.len()
                invariant
                    i <= bounds@.len(),
                    *t is ImplTrait,
                    *bounds == (*t)->ImplTrait_0,
                    out@.len() == i,
                    forall|j: int| 0 <= j < i ==> same_bound(bounds@[j], #[trigger] out@[j]),
                decreases bounds@.len() - i,
            {
                proof {
                    assert(decreases_to!(*t => (*t)->ImplTrait_0));
                    assert(decreases_to!(*bounds => bounds@));
                    assert(decreases_to!(bounds@ => bounds@[i as int]));
                }
                out.push(copy_bound(&bounds[i]));
                i = i + 1;
            }
            TypeTree::ImplTrait(out)
        },
        TypeTree::Wrapped(m, inner) => TypeTree::Wrapped(*m, Box::new(copy_tree(inner))),
        TypeTree::Verbatim(s) => TypeTree::Verbatim(s.clone()),
    }
}

fn copy_bound(b: &Bound) -> (r: Bound)
    ensures
        same_bound(*b, r),
    decreases *b, 2nat,
{
    match b {
        Bound::Trait(p) => Bound::Trait(copy_path(p)),
        Bound::Verbatim(s) => Bound::Verbatim(s.clone()),
    }
}

fn copy_path(p: &PathType) -> (r: PathType)
    ensures
        same_path(*p, r),
    decreases *p, 2nat,
{
    let mut out: Vec<Segment> = Vec::new();
    let mut i: usize = 0;
    while i < p.segments.len()
        invariant
            i <= p.segments@.len(),
            out@.len() == i,
            forall|j: int| 0 <= j < i ==> same_segment(p.segments@[j], #[trigger] out@[j]),
        decreases p.segments@.len() - i,
    {
        proof {
            assert(decreases_to!(*p => p.segments@[i as int]));
        }
        out.push(copy_segment(&p.segments[i]));
        i = i + 1;
    }
    PathType { global: p.global, segments: out }
}

fn copy_segment(s: &Segment) -> (r: Segment)
    ensures
        same_segment(*s, r),
    decreases *s, 1nat,
{
    let args = match &s.args {
        PathArgs::Bare => PathArgs::Bare,
        PathArgs::Parenthesized(text) => PathArgs::Parenthesized(text.clone()),
        PathArgs::Angle(list) => {
            let mut out: Vec<GenericArg> = Vec::new();
            let mut i: usize = 0;
            while i < list.len()
                invariant
                    i <= list@.len(),
                    s.args is Angle,
                    *list == s.args->Angle_0,
                    out@.len() == i,
                    forall|j: int| 0 <= j < i ==> same_arg(list@[j], #[trigger] out@[j]),
                decreases list@.len() - i,
            {
                proof {
                    assert(decreases_to!(*s => s.args));
                    assert(decreases_to!(s.args => s.args->Angle_0));
                    assert(decreases_to!(*list => list@));
                    assert(decreases_to!(list@ => list@[i as int]));
                }
                out.push(copy_arg(&list[i]));
                i = i + 1;
            }
            PathArgs::Angle(out)
        },
    };
    Segment { ident: s.ident.clone(), args }
}

fn copy_arg(a: &GenericArg) -> (r: GenericArg)
    ensures
        same_arg(*a, r),
    decreases *a, 0nat,
{
    match a {
        GenericArg::Type(t) => GenericArg::Type(copy_tree(t)),
        GenericArg::Assoc(n, t) => GenericArg::Assoc(n.clone(), copy_tree(t)),
        GenericArg::Verbatim(s) => GenericArg::Verbatim(s.clone()),
    }
}

} // verus!
