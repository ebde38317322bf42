//! Inserting wrapper markers into a field type.
use vstd::prelude::*;
use crate::types::{is_container, is_named, is_optional, marker_for, GenericArg, Marker, PathArgs, PathType, Segment, TypeTree};

verus! {

/// Why a type could not be wrapped.
#[derive(Clone, Debug, PartialEq, Eq)]
pub enum WrapError {
    /// A path without any segment.
    EmptyPath,
    /// A recognized container written without `<...>`; holds its name.
    NoAngleArgs(String),
    /// A recognized container whose first argument is not a type; holds its name.
    NoTypeArg(String),
}

/// Whether the argument of container `name` is itself marked.
pub open spec fn inner_needs(name: Seq<char>, strict: bool) -> bool {
    if is_optional(name) {
        strict
    } else {
        true
    }
}

/// `n`, marked when `needs` holds.
pub open spec fn marked(n: TypeTree, strict: bool, needs: bool) -> TypeTree {
    if needs {
        TypeTree::Wrapped(marker_for(strict), Box::new(n))
    } else {
        n
    }
}

/// The last segment of a path; meaningful where the path has one.
pub open spec fn last_segment(p: PathType) -> Segment {
    p.segments@[p.segments@.len() - 1]
}

/// Whether a path names a recognized container.
pub open spec fn names_container(p: PathType) -> bool {
    p.segments@.len() > 0 && is_container(last_segment(p).ident@)
}

/// Whether a container segment carries a type as its first angle-bracketed argument.
pub open spec fn has_type_arg(seg: Segment) -> bool {
    &&& seg.args is Angle
    &&& seg.args->Angle_0@.len() > 0
    &&& seg.args->Angle_0@[0] is Type
}

/// The first type argument of a segment for which `has_type_arg` holds.
pub open spec fn type_arg(seg: Segment) -> TypeTree {
    seg.args->Angle_0@[0]->Type_0
}

/// `r` is what wrapping `t` gives: in `strict` mode or not, and with the
/// position of `t` itself marked where `needs` holds.
///
/// Arrays and slices mark their element; parentheses and references pass
/// through without marking. A recognized container marks its first type
/// argument, except an optional one outside strict mode; every other
/// argument and segment stays as written. A recognized container without a
/// type argument, or a path without segments, is an error.
pub open spec fn wraps(t: TypeTree, strict: bool, needs: bool, r: Result<TypeTree, WrapError>) -> bool
    decreases t,
{
    match r {
        Ok(out) => {
            &&& needs ==> (out is Wrapped && out->Wrapped_0 == marker_for(strict))
            &&& {
                let c = if needs {
                    *out->Wrapped_1
                } else {
                    out
                };
                match t {
                    TypeTree::Array { elem, len } => c is Array && c->len == len && wraps(
                        *elem,
                        strict,
                        true,
                        Ok(*c->Array_elem),
                    ),
                    TypeTree::Slice(elem) => c is Slice && wraps(*elem, strict, true, Ok(*c->Slice_0)),
                    TypeTree::Paren(elem) => c is Paren && wraps(*elem, strict, false, Ok(*c->Paren_0)),
                    TypeTree::Reference { elem, lifetime, mutable } => {
                        &&& c is Reference
                        &&& c->lifetime == lifetime
                        &&& c->mutable == mutable
                        &&& wraps(*elem, strict, false, Ok(*c->Reference_elem))
                    },
                    TypeTree::Path(p) => {
                        &&& p.segments@.len() > 0
                        &&& c is Path
                        &&& if !is_container(last_segment(p).ident@) {
                            c == t
                        } else {
                            let seg = last_segment(p);
                            let q = c->Path_0;
                            let last = p.segments@.len() - 1;
                            let qseg = q.segments@[last];
                            &&& has_type_arg(seg)
                            &&& q.global == p.global
                            &&& q.segments@.len() == p.segments@.len()
                            &&& q.segments@ == p.segments@.update(last, qseg)
                            &&& qseg.ident == seg.ident
                            &&& has_type_arg(qseg)
                            &&& qseg.args->Angle_0@ == seg.args->Angle_0@.update(0, qseg.args->Angle_0@[0])
                            &&& wraps(type_arg(seg), strict, inner_needs(seg.ident@, strict), Ok(type_arg(qseg)))
                        }
                    },
                    _ => c == t,
                }
            }
        },
        Err(e) => match t {
            TypeTree::Array { elem, .. } => wraps(*elem, strict, true, Err(e)),
            TypeTree::Slice(elem) => wraps(*elem, strict, true, Err(e)),
            TypeTree::Paren(elem) => wraps(*elem, strict, false, Err(e)),
            TypeTree::Reference { elem, .. } => wraps(*elem, strict, false, Err(e)),
            TypeTree::Path(p) => {
                if p.segments@.len() == 0 {
                    e == WrapError::EmptyPath
                } else {
                    let seg = last_segment(p);
                    if !is_container(seg.ident@) {
                        false
                    } else if !(seg.args is Angle) {
                        e == WrapError::NoAngleArgs(seg.ident)
                    } else if !has_type_arg(seg) {
                        e == WrapError::NoTypeArg(seg.ident)
                    } else {
                        wraps(type_arg(seg), strict, inner_needs(seg.ident@, strict), Err(e))
                    }
                }
            },
            _ => false,
        },
    }
}

fn is_container_name(name: &String) -> (r: bool)
    ensures
        r == is_container(name@),
{
    is_named(name, "Vec") || is_named(name, "VecDeque") || is_named(name, "HashSet")
        || is_named(name, "BTreeSet") || is_named(name, "LinkedList") || is_named(name, "Option")
        || is_named(name, "Result")
}

fn is_optional_name(name: &String) -> (r: bool)
    ensures
        r == is_optional(name@),
{
    is_named(name, "Option") || is_named(name, "Result")
}

/// Wraps `t`, marking its own position where `needs` holds.
pub fn get_wrapped_type(t: TypeTree, strict: bool, needs: bool) -> (r: Result<TypeTree, WrapError>)
    ensures
        wraps(t, strict, needs, r),
    decreases t, 1nat,
{
    let ghost orig = t;
    let core = match t {
        TypeTree::Array { elem, len } => match get_wrapped_type(*elem, strict, true) {
            Ok(e) => TypeTree::Array { elem: Box::new(e), len },
            Err(err) => return Err(err),
        },
        TypeTree::Slice(elem) => match get_wrapped_type(*elem, strict, true) {
            Ok(e) => TypeTree::Slice(Box::new(e)),
            Err(err) => return Err(err),
        },
        TypeTree::Paren(elem) => match get_wrapped_type(*elem, strict, false) {
            Ok(e) => TypeTree::Paren(Box::new(e)),
            Err(err) => return Err(err),
        },
        TypeTree::Reference { elem, lifetime, mutable } => match get_wrapped_type(*elem, strict, false) {
            Ok(e) => TypeTree::Reference { elem: Box::new(e), lifetime, mutable },
            Err(err) => return Err(err),
        },
        TypeTree::Path(p) => match wrap_path(p, strict) {
            Ok(q) => TypeTree::Path(q),
            Err(err) => return Err(err),
        },
        other => other,
    };
    if needs {
        let marker = if strict {
            Marker::Strict
        } else {
            Marker::Semantic
        };
        Ok(TypeTree::Wrapped(marker, Box::new(core)))
    } else {
        Ok(core)
    }
}

fn wrap_path(p: PathType, strict: bool) -> (r: Result<PathType, WrapError>)
    ensures
        wraps(TypeTree::Path(p), strict, false, match r {
            Ok(q) => Ok(TypeTree::Path(q)),
            Err(e) => Err(e),
        }),
    decreases TypeTree::Path(p), 0nat,
{
    let n = p.segments.len();
    if n == 0 {
        return Err(WrapError::EmptyPath);
    }
    if !is_container_name(&p.segments[n - 1].ident) {
        return Ok(p);
    }
    let ghost segs = p.segments@;
    let PathType { global, mut segments } = p;
    let seg = segments.pop().unwrap();
    let Segment { ident, args } = seg;
    match args {
        PathArgs::Angle(mut list) => {
            if list.len() == 0 {
                return Err(WrapError::NoTypeArg(ident.clone()));
            }
            let ghost items = list@;
            let first = list.remove(0);
            match first {
                GenericArg::Type(x) => {
                    proof {
                        assert(decreases_to!(TypeTree::Path(p) => x));
                    }
                    let inner_needs = if is_optional_name(&ident) { strict } else { true };
                    match get_wrapped_type(x, strict, inner_needs) {
                        Ok(y) => {
                            list.insert(0, GenericArg::Type(y));
                            proof {
                                assert(list@ =~= items.update(0, list@[0]));
                            }
                            segments.push(Segment { ident, args: PathArgs::Angle(list) });
                            proof {
                                assert(segments@ =~= segs.update(n - 1, segments@[n - 1]));
                            }
                            Ok(PathType { global, segments })
                        },
                        Err(e) => Err(e),
                    }
                },
                _ => Err(WrapError::NoTypeArg(ident.clone())),
            }
        },
        _ => Err(WrapError::NoAngleArgs(ident.clone())),
    }
}

} // verus!
