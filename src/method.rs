//! Rewriting one method: its result type and its body.
use vstd::prelude::*;
use crate::attrs::{method_options, take_options, without_option, Attribute};
use crate::copy::{copy_tree, same_tree};
use crate::field::{extract_field_type, first_stream, item_type, rewrites, ItemTypes, FieldResult};
use crate::types::{is_container, TypeTree};
use crate::wrap::{has_type_arg, inner_needs, last_segment, type_arg, wraps, WrapError};

verus! {

/// The annotation on an impl block that makes it part of a GraphQL schema.
#[derive(Clone, Copy, Debug, PartialEq, Eq, Structural)]
pub enum GraphQLAttrMacroType {
    Object,
    ComplexObject,
    Interface,
    Subscription,
}

/// A method of an impl block: its annotations, its declared result type, and
/// its body, which the pass never looks into.
#[derive(Debug)]
pub struct Method<B> {
    pub attrs: Vec<Attribute>,
    pub output: Option<TypeTree>,
    pub body: B,
}

/// The body of a method after the pass.
#[derive(Debug)]
pub enum Body<B> {
    /// The body as written.
    Unchanged(B),
    /// Evaluate `body` to a value of type `from`, then reinterpret that value
    /// as the method's new result type.
    Reinterpret { body: B, from: TypeTree },
    /// Evaluate `body` to a stream, then reinterpret each item of it from
    /// `from` to `to`, in order and one at a time.
    MapStream { body: B, from: TypeTree, to: TypeTree },
}

/// What went wrong in one method.
#[derive(Debug, PartialEq, Eq)]
pub enum MethodError {
    /// Its option annotation is malformed.
    InvalidOptions,
    /// Its field type could not be wrapped.
    Wrap(WrapError),
}

/// The error that wrapping `t` ends in, if any.
pub open spec fn wrap_error(t: TypeTree, strict: bool) -> Option<WrapError>
    decreases t,
{
    match t {
        TypeTree::Array { elem, .. } => wrap_error(*elem, strict),
        TypeTree::Slice(elem) => wrap_error(*elem, strict),
        TypeTree::Paren(elem) => wrap_error(*elem, strict),
        TypeTree::Reference { elem, .. } => wrap_error(*elem, strict),
        TypeTree::Path(p) => {
            if p.segments@.len() == 0 {
                Some(WrapError::EmptyPath)
            } else {
                let seg = last_segment(p);
                if !is_container(seg.ident@) {
                    None
                } else if !(seg.args is Angle) {
                    Some(WrapError::NoAngleArgs(seg.ident))
                } else if !has_type_arg(seg) {
                    Some(WrapError::NoTypeArg(seg.ident))
                } else {
                    wrap_error(type_arg(seg), strict)
                }
            }
        },
        _ => None,
    }
}

/// What becomes of the field type of result type `ret`: `None` where there is
/// none, else the error that wrapping it ends in, if any.
pub open spec fn field_status(ret: TypeTree, subscription: bool, strict: bool) -> Option<Option<WrapError>>
    decreases ret,
{
    match ret {
        TypeTree::Paren(elem) => field_status(*elem, subscription, strict),
        TypeTree::Path(_) | TypeTree::Array { .. } | TypeTree::Slice(_) | TypeTree::Reference { .. } => {
            Some(wrap_error(ret, strict))
        },
        TypeTree::ImplTrait(bounds) => {
            if subscription && first_stream(bounds@, 0) is Some {
                let (bi, ai) = first_stream(bounds@, 0)->0;
                Some(wrap_error(item_type(bounds@[bi], ai), strict))
            } else {
                None
            }
        },
        _ => None,
    }
}

proof fn lemma_wraps_error(t: TypeTree, strict: bool, needs: bool, r: Result<TypeTree, WrapError>)
    requires
        wraps(t, strict, needs, r),
    ensures
        wrap_error(t, strict) == match r {
            Ok(_) => None,
            Err(e) => Some(e),
        },
    decreases t,
{
    match r {
        Ok(out) => {
            let c = if needs {
                *out->Wrapped_1
            } else {
                out
            };
            match t {
                TypeTree::Array { elem, .. } => lemma_wraps_error(*elem, strict, true, Ok(*c->Array_elem)),
                TypeTree::Slice(elem) => lemma_wraps_error(*elem, strict, true, Ok(*c->Slice_0)),
                TypeTree::Paren(elem) => lemma_wraps_error(*elem, strict, false, Ok(*c->Paren_0)),
                TypeTree::Reference { elem, .. } => lemma_wraps_error(
                    *elem,
                    strict,
                    false,
                    Ok(*c->Reference_elem),
                ),
                TypeTree::Path(p) => {
                    if is_container(last_segment(p).ident@) {
                        let seg = last_segment(p);
                        let qseg = c->Path_0.segments@[p.segments@.len() - 1];
                        lemma_wraps_error(type_arg(seg), strict, inner_needs(seg.ident@, strict), Ok(type_arg(qseg)));
                    }
                },
                _ => {},
            }
        },
        Err(e) => match t {
            TypeTree::Array { elem, .. } => lemma_wraps_error(*elem, strict, true, r),
            TypeTree::Slice(elem) => lemma_wraps_error(*elem, strict, true, r),
            TypeTree::Paren(elem) => lemma_wraps_error(*elem, strict, false, r),
            TypeTree::Reference { elem, .. } => lemma_wraps_error(*elem, strict, false, r),
            TypeTree::Path(p) => {
                if p.segments@.len() > 0 && is_container(last_segment(p).ident@) && has_type_arg(last_segment(p)) {
                    let seg = last_segment(p);
                    lemma_wraps_error(type_arg(seg), strict, inner_needs(seg.ident@, strict), r);
                }
            },
            _ => {},
        },
    }
}

proof fn lemma_rewrites_status(ret: TypeTree, subscription: bool, strict: bool, r: FieldResult)
    requires
        rewrites(ret, subscription, strict, r),
    ensures
        field_status(ret, subscription, strict) == match r {
            None => None,
            Some(Err(e)) => Some(Some(e)),
            Some(Ok(_)) => Some(None::<WrapError>),
        },
    decreases ret,
{
    match ret {
        TypeTree::Paren(elem) => match r {
            Some(Ok((out, items))) => lemma_rewrites_status(*elem, subscription, strict, Some(Ok((*out->Paren_0, items)))),
            _ => lemma_rewrites_status(*elem, subscription, strict, r),
        },
        TypeTree::Path(_) | TypeTree::Array { .. } | TypeTree::Slice(_) | TypeTree::Reference { .. } => {
            match r {
                Some(Ok((out, _))) => lemma_wraps_error(ret, strict, true, Ok(out)),
                Some(Err(e)) => lemma_wraps_error(ret, strict, true, Err(e)),
                None => {},
            }
        },
        TypeTree::ImplTrait(bounds) => {
            if subscription && first_stream(bounds@, 0) is Some {
                let (bi, ai) = first_stream(bounds@, 0)->0;
                let item = item_type(bounds@[bi], ai);
                match r {
                    Some(Ok((out, _))) => {
                        let nb = out->ImplTrait_0@[bi];
                        let qseg = nb->Trait_0.segments@[bounds@[bi]->Trait_0.segments@.len() - 1];
                        lemma_wraps_error(item, strict, true, Ok(qseg.args->Angle_0@[ai]->Assoc_1));
                    },
                    Some(Err(e)) => lemma_wraps_error(item, strict, true, Err(e)),
                    None => {},
                }
            }
        },
        _ => {},
    }
}

/// The error that the pass reports for method `m`, if any.
pub open spec fn method_error<B>(m: Method<B>, kind: GraphQLAttrMacroType) -> Option<MethodError> {
    match method_options(m.attrs@) {
        None => Some(MethodError::InvalidOptions),
        Some(opts) => match m.output {
            None => None,
            Some(ret) => match field_status(ret, kind == GraphQLAttrMacroType::Subscription, opts.strict_non_null) {
                Some(Some(e)) => Some(MethodError::Wrap(e)),
                _ => None,
            },
        },
    }
}

/// `out` is what the pass makes of method `m` in an impl block of kind `kind`.
///
/// The option annotation is taken out in every case. Where the options are
/// malformed, or the method declares no result type, or its result type has
/// no field type or one that cannot be wrapped, the result type and body stay
/// as written. Otherwise the result type is rewritten as `rewrites` states and
/// the body converts the value of the old result type (or, for a stream,
/// each item) to the new one.
pub open spec fn transformed<B>(m: Method<B>, kind: GraphQLAttrMacroType, out: Method<Body<B>>) -> bool {
    &&& out.attrs@ == without_option(m.attrs@)
    &&& match method_options(m.attrs@) {
        None => out.output == m.output && out.body == Body::Unchanged(m.body),
        Some(opts) => match m.output {
            None => out.output is None && out.body == Body::Unchanged(m.body),
            Some(ret) => {
                let subscription = kind == GraphQLAttrMacroType::Subscription;
                let strict = opts.strict_non_null;
                &&& out.output is Some
                &&& match out.body {
                    Body::Unchanged(b) => {
                        &&& b == m.body
                        &&& field_status(ret, subscription, strict) != Some(None::<WrapError>)
                        &&& same_tree(ret, out.output->0)
                    },
                    Body::Reinterpret { body, from } => {
                        &&& body == m.body
                        &&& same_tree(ret, from)
                        &&& rewrites(ret, subscription, strict, Some(Ok((out.output->0, None))))
                    },
                    Body::MapStream { body, from, to } => {
                        &&& body == m.body
                        &&& rewrites(
                            ret,
                            subscription,
                            strict,
                            Some(Ok((out.output->0, Some(ItemTypes { from, to })))),
                        )
                    },
                }
            },
        },
    }
}

/// Rewrites one method of an impl block of kind `kind`, as `transformed`
/// states, and gives the error to report for it, if any.
pub fn transform_method<B>(m: Method<B>, kind: GraphQLAttrMacroType) -> (r: (Method<Body<B>>, Option<MethodError>))
    ensures
        transformed(m, kind, r.0),
        r.1 == method_error(m, kind),
{
    let Method { mut attrs, output, body } = m;
    let opts = match take_options(&mut attrs) {
        Some(opts) => opts,
        None => {
            return (Method { attrs, output, body: Body::Unchanged(body) }, Some(MethodError::InvalidOptions));
        },
    };
    let ret = match output {
        Some(ret) => ret,
        None => {
            return (Method { attrs, output: None, body: Body::Unchanged(body) }, None);
        },
    };
    let subscription = kind == GraphQLAttrMacroType::Subscription;
    let as_written = copy_tree(&ret);
    let ghost ret0 = ret;
    let res = extract_field_type(ret, subscription, opts.strict_non_null);
    proof {
        lemma_rewrites_status(ret0, subscription, opts.strict_non_null, res);
    }
    match res {
        None => (Method { attrs, output: Some(as_written), body: Body::Unchanged(body) }, None),
        Some(Err(e)) => (Method { attrs, output: Some(as_written), body: Body::Unchanged(body) }, Some(MethodError::Wrap(e))),
        Some(Ok((out, None))) => (Method { attrs, output: Some(out), body: Body::Reinterpret { body, from: as_written } }, None),
        Some(Ok((out, Some(items)))) => {
            let ItemTypes { from, to } = items;
            (Method { attrs, output: Some(out), body: Body::MapStream { body, from, to } }, None)
        },
    }
}

} // verus!
