//! Rewriting a whole impl block.
use vstd::prelude::*;
use crate::attrs::{AttrArgs, Attribute, MetaItem};
use crate::method::{method_error, transform_method, transformed, Body, GraphQLAttrMacroType, Method, MethodError};
use crate::types::is_named;

verus! {

/// One item of an impl block.
#[derive(Debug)]
pub enum ImplItem<B, I> {
    /// A method, which the pass rewrites.
    Method(Method<B>),
    /// Any other item, which it leaves as it is.
    Other(I),
}

/// An impl block: its own annotations and its items.
#[derive(Debug)]
pub struct ImplBlock<B, I> {
    pub attrs: Vec<Attribute>,
    pub items: Vec<ImplItem<B, I>>,
}

/// An error of one method, with the position of that method among the items.
#[derive(Debug, PartialEq, Eq)]
pub struct Diagnostic {
    pub item: usize,
    pub error: MethodError,
}

/// The errors of the first `n` items, in their order.
pub open spec fn errors_of<B, I>(items: Seq<ImplItem<B, I>>, kind: GraphQLAttrMacroType, n: int) -> Seq<Diagnostic>
    decreases n,
{
    if n <= 0 {
        Seq::empty()
    } else {
        let before = errors_of(items, kind, n - 1);
        match items[n - 1] {
            ImplItem::Method(m) => match method_error(m, kind) {
                Some(e) => before.push(Diagnostic { item: (n - 1) as usize, error: e }),
                None => before,
            },
            ImplItem::Other(_) => before,
        }
    }
}

/// Item `out` is what the pass makes of item `item`.
pub open spec fn item_transformed<B, I>(item: ImplItem<B, I>, kind: GraphQLAttrMacroType, out: ImplItem<Body<B>, I>) -> bool {
    match item {
        ImplItem::Method(m) => out is Method && transformed(m, kind, out->Method_0),
        ImplItem::Other(x) => out == ImplItem::<Body<B>, I>::Other(x),
    }
}

/// Rewrites every method of `block` once, as `transformed` states, leaves the
/// other items as they are, and gathers the errors of all methods in order.
pub fn transform_impl<B, I>(block: ImplBlock<B, I>, kind: GraphQLAttrMacroType) -> (r: (ImplBlock<Body<B>, I>, Vec<Diagnostic>))
    ensures
        r.0.attrs == block.attrs,
        r.0.items@.len() == block.items@.len(),
        forall|i: int| 0 <= i < block.items@.len() ==> item_transformed(block.items@[i], kind, #[trigger] r.0.items@[i]),
        r.1@ == errors_of(block.items@, kind, block.items@.len() as int),
{
    let ImplBlock { attrs, mut items } = block;
    let ghost all = items@;
    let n = items.len();
    let mut out: Vec<ImplItem<Body<B>, I>> = Vec::new();
    let mut errors: Vec<Diagnostic> = Vec::new();
    let mut i: usize = 0;
    while i < n
        invariant
            n == all.len(),
            i <= n,
            items@ == all.subrange(i as int, n as int),
            out@.len() == i,
            forall|j: int| 0 <= j < i ==> item_transformed(all[j], kind, #[trigger] out@[j]),
            errors@ == errors_of(all, kind, i as int),
        decreases n - i,
    {
        let item = items.remove(0);
        proof {
            assert(item == all[i as int]);
        }
        match item {
            ImplItem::Method(m) => {
                let (new_method, error) = transform_method(m, kind);
                out.push(ImplItem::Method(new_method));
                match error {
                    Some(e) => errors.push(Diagnostic { item: i, error: e }),
                    None => {},
                }
            },
            ImplItem::Other(x) => out.push(ImplItem::Other(x)),
        }
        proof {
            assert(items@ =~= all.subrange(i + 1, n as int));
        }
        i = i + 1;
    }
    (ImplBlock { attrs, items: out }, errors)
}

/// The kind of schema annotation that `a` is, if it is one: its path ends in
/// `Object`, `ComplexObject`, `Interface` or `Subscription`, and it is not
/// written `#[name = value]`.
pub open spec fn attr_kind(a: Attribute) -> Option<GraphQLAttrMacroType> {
    if a.args is Value || a.path@.len() == 0 {
        None
    } else {
        let name = a.path@[a.path@.len() - 1]@;
        if name == "Object"@ {
            Some(GraphQLAttrMacroType::Object)
        } else if name == "ComplexObject"@ {
            Some(GraphQLAttrMacroType::ComplexObject)
        } else if name == "Interface"@ {
            Some(GraphQLAttrMacroType::Interface)
        } else if name == "Subscription"@ {
            Some(GraphQLAttrMacroType::Subscription)
        } else {
            None
        }
    }
}

/// The first schema annotation at or after `from`.
pub open spec fn kind_index(attrs: Seq<Attribute>, from: int) -> Option<int>
    decreases attrs.len() - from,
{
    if from < 0 || from >= attrs.len() {
        None
    } else if attr_kind(attrs[from]) is Some {
        Some(from)
    } else {
        kind_index(attrs, from + 1)
    }
}

/// `b` is annotation `a` with the argument `semantic_non_null` appended,
/// which tells the schema framework that fields are semantically non-null
/// unless marked otherwise.
pub open spec fn with_sentinel(a: Attribute, b: Attribute) -> bool {
    &&& b.global == a.global
    &&& b.path == a.path
    &&& b.args is List
    &&& {
        let items = b.args->List_0@;
        let before = match a.args {
            AttrArgs::List(old) => old@,
            _ => Seq::empty(),
        };
        &&& items.len() == before.len() + 1
        &&& items.subrange(0, before.len() as int) == before
        &&& items.last() is Word
        &&& items.last()->Word_0@ == "semantic_non_null"@
    }
}

fn read_kind(a: &Attribute) -> (r: Option<GraphQLAttrMacroType>)
    ensures
        r == attr_kind(*a),
{
    match &a.args {
        AttrArgs::Value(_) => {
            return None;
        },
        _ => {},
    }
    let n = a.path.len();
    if n == 0 {
        return None;
    }
    let name = &a.path[n - 1];
    if is_named(name, "Object") {
        Some(GraphQLAttrMacroType::Object)
    } else if is_named(name, "ComplexObject") {
        Some(GraphQLAttrMacroType::ComplexObject)
    } else if is_named(name, "Interface") {
        Some(GraphQLAttrMacroType::Interface)
    } else if is_named(name, "Subscription") {
        Some(GraphQLAttrMacroType::Subscription)
    } else {
        None
    }
}

fn find_kind(attrs: &Vec<Attribute>, from: usize) -> (r: Option<usize>)
    requires
        from <= attrs@.len(),
    ensures
        kind_index(attrs@, from as int) == match r {
            Some(i) => Some(i as int),
            None => None,
        },
        r is Some ==> from <= r->0 < attrs@.len() && attr_kind(attrs@[r->0 as int]) is Some,
{
    let mut i: usize = from;
    while i < attrs.len()
        invariant
            from <= i <= attrs@.len(),
            kind_index(attrs@, from as int) == kind_index(attrs@, i as int),
        decreases attrs@.len() - i,
    {
        if read_kind(&attrs[i]).is_some() {
            return Some(i);
        }
        i = i + 1;
    }
    None
}

fn add_sentinel(a: Attribute) -> (r: Attribute)
    ensures
        with_sentinel(a, r),
{
    let Attribute { global, path, args } = a;
    let mut items = match args {
        AttrArgs::List(items) => items,
        _ => Vec::new(),
    };
    let ghost before = items@;
    items.push(MetaItem::Word("semantic_non_null".to_owned()));
    proof {
        assert(items@.subrange(0, before.len() as int) =~= before);
    }
    Attribute { global, path, args: AttrArgs::List(items) }
}

/// What the pass makes of an impl block.
#[derive(Debug)]
pub enum Expansion<B, I> {
    /// The block had one schema annotation: the rewritten block and the
    /// errors of its methods.
    Transformed(ImplBlock<Body<B>, I>, Vec<Diagnostic>),
    /// The block had no schema annotation: it stays as written, and that is
    /// reported as an error.
    Unsupported(ImplBlock<B, I>),
    /// The block had more than one: the error names the second, by its
    /// position among the block's annotations.
    Conflict { index: usize },
}

/// The pass on an annotated impl block.
///
/// With exactly one schema annotation, that annotation gets the argument
/// `semantic_non_null` and every method is rewritten as `transform_impl`
/// states, for the kind of block the annotation names.
#[allow(non_snake_case)]
pub fn SemanticNonNull<B, I>(block: ImplBlock<B, I>) -> (r: Expansion<B, I>)
    ensures
        match kind_index(block.attrs@, 0) {
            None => r == Expansion::Unsupported(block),
            Some(k) => match kind_index(block.attrs@, k + 1) {
                Some(j) => r == Expansion::<B, I>::Conflict { index: j as usize },
                None => {
                    let kind = attr_kind(block.attrs@[k])->0;
                    &&& r is Transformed
                    &&& r->Transformed_0.attrs@.len() == block.attrs@.len()
                    &&& r->Transformed_0.attrs@ == block.attrs@.update(k, r->Transformed_0.attrs@[k])
                    &&& with_sentinel(block.attrs@[k], r->Transformed_0.attrs@[k])
                    &&& r->Transformed_0.items@.len() == block.items@.len()
                    &&& forall|i: int| 0 <= i < block.items@.len() ==> item_transformed(
                        block.items@[i],
                        kind,
                        #[trigger] r->Transformed_0.items@[i],
                    )
                    &&& r->Transformed_1@ == errors_of(block.items@, kind, block.items@.len() as int)
                },
            },
        },
{
    let k = match find_kind(&block.attrs, 0) {
        Some(k) => k,
        None => {
            return Expansion::Unsupported(block);
        },
    };
    let n = block.attrs.len();
    proof {
        assert(k < n);
    }
    match find_kind(&block.attrs, k + 1) {
        Some(j) => {
            return Expansion::Conflict { index: j };
        },
        None => {},
    }
    let kind = match read_kind(&block.attrs[k]) {
        Some(kind) => kind,
        None => {
            return Expansion::Conflict { index: k };
        },
    };
    let ImplBlock { mut attrs, items } = block;
    let ghost before = attrs@;
    let a = attrs.remove(k);
    attrs.insert(k, add_sentinel(a));
    proof {
        assert(attrs@ =~= before.update(k as int, attrs@[k as int]));
    }
    let (out, errors) = transform_impl(ImplBlock { attrs, items }, kind);
    Expansion::Transformed(out, errors)
}

} // verus!
