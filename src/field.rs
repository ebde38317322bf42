//! Finding the field type inside a method's result type, and wrapping it.
use vstd::prelude::*;
use crate::copy::{copy_tree, same_tree};
use crate::types::{is_named, Bound, GenericArg, PathArgs, PathType, Segment, TypeTree};
use crate::wrap::{get_wrapped_type, last_segment, wraps, WrapError};

verus! {

/// The first argument at or after `from` that binds the associated type `Item`.
pub open spec fn item_index(args: Seq<GenericArg>, from: int) -> Option<int>
    decreases args.len() - from,
{
    if from < 0 || from >= args.len() {
        None
    } else if args[from] is Assoc && args[from]->Assoc_0@ == "Item"@ {
        Some(from)
    } else {
        item_index(args, from + 1)
    }
}

/// Where bound `b` is a `Stream<..., Item = T, ...>` bound, the index of its `Item` argument.
pub open spec fn stream_item(b: Bound) -> Option<int> {
    if b is Trait && b->Trait_0.segments@.len() > 0 && last_segment(b->Trait_0).ident@ == "Stream"@
        && last_segment(b->Trait_0).args is Angle {
        item_index(last_segment(b->Trait_0).args->Angle_0@, 0)
    } else {
        None
    }
}

/// The first bound at or after `from` that is a stream bound with an `Item`,
/// and the index of that argument.
pub open spec fn first_stream(bounds: Seq<Bound>, from: int) -> Option<(int, int)>
    decreases bounds.len() - from,
{
    if from < 0 || from >= bounds.len() {
        None
    } else {
        match stream_item(bounds[from]) {
            Some(a) => Some((from, a)),
            None => first_stream(bounds, from + 1),
        }
    }
}

/// The `Item` type named by a bound for which `stream_item` gives `a`.
pub open spec fn item_type(b: Bound, a: int) -> TypeTree {
    last_segment(b->Trait_0).args->Angle_0@[a]->Assoc_1
}

/// The item types of a stream before and after wrapping.
#[derive(Debug)]
pub struct ItemTypes {
    pub from: TypeTree,
    pub to: TypeTree,
}

/// The new result type and, for a stream, its item types.
pub type FieldResult = Option<Result<(TypeTree, Option<ItemTypes>), WrapError>>;

/// `r` is what locating and wrapping the field type of result type `ret` gives.
///
/// Parentheses are looked through. A path, array, slice or reference is the
/// field type itself. In a subscription, an `impl` type whose bounds include
/// `Stream<Item = T>` has `T` as its field type, and the result also gives
/// the old and new item types. Any other shape has no field type (`None`).
pub open spec fn rewrites(ret: TypeTree, subscription: bool, strict: bool, r: FieldResult) -> bool
    decreases ret,
{
    match ret {
        TypeTree::Paren(elem) => match r {
            Some(Ok((out, items))) => out is Paren && rewrites(
                *elem,
                subscription,
                strict,
                Some(Ok((*out->Paren_0, items))),
            ),
            _ => rewrites(*elem, subscription, strict, r),
        },
        TypeTree::Path(_) | TypeTree::Array { .. } | TypeTree::Slice(_) | TypeTree::Reference { .. } => {
            match r {
                None => false,
                Some(Err(e)) => wraps(ret, strict, true, Err(e)),
                Some(Ok((out, items))) => items is None && wraps(ret, strict, true, Ok(out)),
            }
        },
        TypeTree::ImplTrait(bounds) => {
            if !subscription {
                r is None
            } else {
                match first_stream(bounds@, 0) {
                    None => r is None,
                    Some((bi, ai)) => {
                        let b = bounds@[bi];
                        let item = item_type(b, ai);
                        match r {
                            None => false,
                            Some(Err(e)) => wraps(item, strict, true, Err(e)),
                            Some(Ok((out, items))) => {
                                let p = b->Trait_0;
                                let last = p.segments@.len() - 1;
                                let nb = out->ImplTrait_0@[bi];
                                let q = nb->Trait_0;
                                let qseg = q.segments@[last];
                                let list = last_segment(p).args->Angle_0@;
                                let qlist = qseg.args->Angle_0@;
                                &&& out is ImplTrait
                                &&& out->ImplTrait_0@ == bounds@.update(bi, nb)
                                &&& nb is Trait
                                &&& q.global == p.global
                                &&& q.segments@ == p.segments@.update(last, qseg)
                                &&& qseg.ident == last_segment(p).ident
                                &&& qseg.args is Angle
                                &&& qlist == list.update(ai, qlist[ai])
                                &&& qlist[ai] is Assoc
                                &&& qlist[ai]->Assoc_0 == list[ai]->Assoc_0
                                &&& items is Some
                                &&& same_tree(item, items->0.from)
                                &&& same_tree(qlist[ai]->Assoc_1, items->0.to)
                                &&& wraps(item, strict, true, Ok(qlist[ai]->Assoc_1))
                            },
                        }
                    },
                }
            }
        },
        _ => r is None,
    }
}

proof fn lemma_item_index(args: Seq<GenericArg>, from: int)
    requires
        item_index(args, from) is Some,
    ensures
        ({
            let a = item_index(args, from)->0;
            &&& from <= a < args.len()
            &&& args[a] is Assoc
            &&& args[a]->Assoc_0@ == "Item"@
        }),
    decreases args.len() - from,
{
    if !(from < 0 || from >= args.len()) && !(args[from] is Assoc && args[from]->Assoc_0@ == "Item"@) {
        lemma_item_index(args, from + 1);
    }
}

proof fn lemma_first_stream(bounds: Seq<Bound>, from: int)
    requires
        first_stream(bounds, from) is Some,
    ensures
        ({
            let (b, a) = first_stream(bounds, from)->0;
            &&& from <= b < bounds.len()
            &&& stream_item(bounds[b]) == Some(a)
            &&& bounds[b] is Trait
            &&& bounds[b]->Trait_0.segments@.len() > 0
            &&& last_segment(bounds[b]->Trait_0).args is Angle
            &&& 0 <= a < last_segment(bounds[b]->Trait_0).args->Angle_0@.len()
            &&& last_segment(bounds[b]->Trait_0).args->Angle_0@[a] is Assoc
        }),
    decreases bounds.len() - from,
{
    if stream_item(bounds[from]) is Some {
        lemma_item_index(last_segment(bounds[from]->Trait_0).args->Angle_0@, 0);
    } else {
        lemma_first_stream(bounds, from + 1);
    }
}

fn find_item(args: &Vec<GenericArg>) -> (r: Option<usize>)
    ensures
        item_index(args@, 0) == match r {
            Some(a) => Some(a as int),
            None => None,
        },
{
    let mut i: usize = 0;
    while i < args.len()
        invariant
            i <= args@.len(),
            item_index(args@, 0) == item_index(args@, i as int),
        decreases args@.len() - i,
    {
        match &args[i] {
            GenericArg::Assoc(name, _) => {
                if is_named(name, "Item") {
                    return Some(i);
                }
            },
            _ => {},
        }
        i = i + 1;
    }
    None
}

fn find_stream(bounds: &Vec<Bound>) -> (r: Option<(usize, usize)>)
    ensures
        first_stream(bounds@, 0) == match r {
            Some((b, a)) => Some((b as int, a as int)),
            None => None,
        },
{
    let mut i: usize = 0;
    while i < bounds.len()
        invariant
            i <= bounds@.len(),
            first_stream(bounds@, 0) == first_stream(bounds@, i as int),
        decreases bounds@.len() - i,
    {
        match &bounds[i] {
            Bound::Trait(p) => {
                let n = p.segments.len();
                if n > 0 && is_named(&p.segments[n - 1].ident, "Stream") {
                    match &p.segments[n - 1].args {
                        PathArgs::Angle(args) => match find_item(args) {
                            Some(a) => {
                                return Some((i, a));
                            },
                            None => {},
                        },
                        _ => {},
                    }
                }
            },
            _ => {},
        }
        i = i + 1;
    }
    None
}

/// Locates the field type of result type `ret` and wraps it, as `rewrites` states.
pub fn extract_field_type(ret: TypeTree, subscription: bool, strict: bool) -> (r: FieldResult)
    ensures
        rewrites(ret, subscription, strict, r),
    decreases ret,
{
    match ret {
        TypeTree::Paren(elem) => match extract_field_type(*elem, subscription, strict) {
            Some(Ok((out, items))) => Some(Ok((TypeTree::Paren(Box::new(out)), items))),
            other => other,
        },
        TypeTree::Path(_) | TypeTree::Array { .. } | TypeTree::Slice(_) | TypeTree::Reference { .. } => {
            match get_wrapped_type(ret, strict, true) {
                Ok(out) => Some(Ok((out, None))),
                Err(e) => Some(Err(e)),
            }
        },
        TypeTree::ImplTrait(mut bounds) => {
            if !subscription {
                return None;
            }
            let (bi, ai) = match find_stream(&bounds) {
                Some(found) => found,
                None => {
                    return None;
                },
            };
            let ghost bs = bounds@;
            proof {
                lemma_first_stream(bs, 0);
            }
            let b = bounds.remove(bi);
            let p = match b {
                Bound::Trait(p) => p,
                _ => {
                    return None;
                },
            };
            let PathType { global, mut segments } = p;
            let ghost segs = segments@;
            let Segment { ident, args } = segments.pop().unwrap();
            let mut list = match args {
                PathArgs::Angle(list) => list,
                _ => {
                    return None;
                },
            };
            let ghost items = list@;
            let (name, item) = match list.remove(ai) {
                GenericArg::Assoc(name, item) => (name, item),
                _ => {
                    return None;
                },
            };
            let orig_item = copy_tree(&item);
            match get_wrapped_type(item, strict, true) {
                Ok(new_item) => {
                    let new_copy = copy_tree(&new_item);
                    list.insert(ai, GenericArg::Assoc(name, new_item));
                    proof {
                        assert(list@ =~= items.update(ai as int, list@[ai as int]));
                    }
                    let n = segments.len();
                    segments.push(Segment { ident, args: PathArgs::Angle(list) });
                    proof {
                        assert(segments@ =~= segs.update(n as int, segments@[n as int]));
                    }
                    bounds.insert(bi, Bound::Trait(PathType { global, segments }));
                    proof {
                        assert(bounds@ =~= bs.update(bi as int, bounds@[bi as int]));
                    }
                    Some(Ok((TypeTree::ImplTrait(bounds), Some(ItemTypes { from: orig_item, to: new_copy }))))
                },
                Err(e) => Some(Err(e)),
            }
        },
        _ => None,
    }
}

} // verus!
