//! Annotations, and the per-method option annotation `#[semantic_nullability(...)]`.
use vstd::prelude::*;
use crate::types::is_named;

verus! {

/// One item of an annotation's argument list.
#[derive(Debug)]
pub enum MetaItem {
    /// A bare word: `strict_non_null`.
    Word(String),
    /// A boolean setting: `strict_non_null = true`.
    Bool(String, bool),
    /// Anything else, kept as written.
    Verbatim(String),
}

/// The arguments of an annotation.
#[derive(Debug)]
pub enum AttrArgs {
    /// `#[name]`
    Bare,
    /// `#[name(item, item, ...)]`
    List(Vec<MetaItem>),
    /// `#[name = value]`, the value kept as written.
    Value(String),
}

/// An annotation on an impl block or a method.
#[derive(Debug)]
pub struct Attribute {
    /// Whether the path starts with `::`.
    pub global: bool,
    /// The identifiers of the path's segments.
    pub path: Vec<String>,
    pub args: AttrArgs,
}

/// The options one method asks for.
#[derive(Clone, Copy, Debug, PartialEq, Eq, Structural)]
pub struct MethodOptions {
    /// Whether null is reported as an error rather than marked as unexpected.
    pub strict_non_null: bool,
}

pub open spec fn default_options() -> MethodOptions {
    MethodOptions { strict_non_null: false }
}

/// Whether `a` is the option annotation: a path of the single identifier
/// `semantic_nullability`.
pub open spec fn is_option_attr(a: Attribute) -> bool {
    !a.global && a.path@.len() == 1 && a.path@[0]@ == "semantic_nullability"@
}

/// The first option annotation at or after `from`.
pub open spec fn option_index(attrs: Seq<Attribute>, from: int) -> Option<int>
    decreases attrs.len() - from,
{
    if from < 0 || from >= attrs.len() {
        None
    } else if is_option_attr(attrs[from]) {
        Some(from)
    } else {
        option_index(attrs, from + 1)
    }
}

/// The annotations that remain once the option annotation is taken out.
pub open spec fn without_option(attrs: Seq<Attribute>) -> Seq<Attribute> {
    match option_index(attrs, 0) {
        Some(i) => attrs.remove(i),
        None => attrs,
    }
}

/// Whether `item` sets the strict flag, and to which value.
pub open spec fn strict_flag(item: MetaItem) -> Option<bool> {
    match item {
        MetaItem::Word(name) => if name@ == "strict_non_null"@ {
            Some(true)
        } else {
            None
        },
        MetaItem::Bool(name, value) => if name@ == "strict_non_null"@ {
            Some(value)
        } else {
            None
        },
        MetaItem::Verbatim(_) => None,
    }
}

/// The options that an option annotation states, or `None` where it is
/// malformed: it must be a list that holds at most one item, the strict flag.
pub open spec fn parse_options_spec(a: Attribute) -> Option<MethodOptions> {
    match a.args {
        AttrArgs::List(items) => if items@.len() == 0 {
            Some(default_options())
        } else if items@.len() == 1 && strict_flag(items@[0]) is Some {
            Some(MethodOptions { strict_non_null: strict_flag(items@[0])->0 })
        } else {
            None
        },
        _ => None,
    }
}

/// The options of a method with annotations `attrs`: the defaults where it
/// has no option annotation, `None` where the one it has is malformed.
pub open spec fn method_options(attrs: Seq<Attribute>) -> Option<MethodOptions> {
    match option_index(attrs, 0) {
        Some(i) => parse_options_spec(attrs[i]),
        None => Some(default_options()),
    }
}

/// The position of the first option annotation.
pub fn find_option_attr(attrs: &Vec<Attribute>) -> (r: Option<usize>)
    ensures
        option_index(attrs@, 0) == match r {
            Some(i) => Some(i as int),
            None => None,
        },
        r is Some ==> r->0 < attrs@.len() && is_option_attr(attrs@[r->0 as int]),
{
    let mut i: usize = 0;
    while i < attrs.len()
        invariant
            i <= attrs@.len(),
            option_index(attrs@, 0) == option_index(attrs@, i as int),
        decreases attrs@.len() - i,
    {
        let a = &attrs[i];
        if !a.global && a.path.len() == 1 && is_named(&a.path[0], "semantic_nullability") {
            return Some(i);
        }
        i = i + 1;
    }
    None
}

fn parse_strict_flag(item: &MetaItem) -> (r: Option<bool>)
    ensures
        r == strict_flag(*item),
{
    match item {
        MetaItem::Word(name) => if is_named(name, "strict_non_null") {
            Some(true)
        } else {
            None
        },
        MetaItem::Bool(name, value) => if is_named(name, "strict_non_null") {
            Some(*value)
        } else {
            None
        },
        MetaItem::Verbatim(_) => None,
    }
}

/// Reads the options that an option annotation states; `None` where it is malformed.
pub fn parse_options(a: &Attribute) -> (r: Option<MethodOptions>)
    ensures
        r == parse_options_spec(*a),
{
    match &a.args {
        AttrArgs::List(items) => {
            if items.len() == 0 {
                Some(MethodOptions { strict_non_null: false })
            } else if items.len() == 1 {
                match parse_strict_flag(&items[0]) {
                    Some(v) => Some(MethodOptions { strict_non_null: v }),
                    None => None,
                }
            } else {
                None
            }
        },
        _ => None,
    }
}

/// Takes the option annotation out of `attrs` and reads it.
pub fn take_options(attrs: &mut Vec<Attribute>) -> (r: Option<MethodOptions>)
    ensures
        final(attrs)@ == without_option(old(attrs)@),
        r == method_options(old(attrs)@),
{
    match find_option_attr(attrs) {
        Some(i) => {
            let a = attrs.remove(i);
            parse_options(&a)
        },
        None => Some(MethodOptions { strict_non_null: false }),
    }
}

} // verus!
