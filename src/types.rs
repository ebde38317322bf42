//! The type trees that the pass reads and rewrites.
use vstd::prelude::*;

verus! {

/// Which wrapper marks a position of a type.
#[derive(Clone, Copy, Debug, PartialEq, Eq, Structural)]
pub enum Marker {
    /// `SemanticNonNull<_>`: not null in normal operation.
    Semantic,
    /// `StrictNonNull<_>`: null is reported as an error.
    Strict,
}

/// The generic arguments of one path segment.
#[derive(Debug)]
pub enum PathArgs {
    /// `Name`
    Bare,
    /// `Name<A, B, ...>`
    Angle(Vec<GenericArg>),
    /// `Name(A, B) -> C`, kept as written.
    Parenthesized(String),
}

/// One angle-bracketed generic argument.
#[derive(Debug)]
pub enum GenericArg {
    /// A type argument.
    Type(TypeTree),
    /// An associated type binding, `Name = Type`.
    Assoc(String, TypeTree),
    /// A lifetime, a constant or a constraint, kept as written.
    Verbatim(String),
}

/// One segment of a path, `ident` with its arguments.
#[derive(Debug)]
pub struct Segment {
    pub ident: String,
    pub args: PathArgs,
}

/// A path such as `std::vec::Vec<T>`.
#[derive(Debug)]
pub struct PathType {
    /// Whether the path starts with `::`.
    pub global: bool,
    pub segments: Vec<Segment>,
}

/// One bound of an `impl Trait` type.
#[derive(Debug)]
pub enum Bound {
    /// A plain trait bound.
    Trait(PathType),
    /// A lifetime, a `?Sized`, a higher-ranked bound; kept as written.
    Verbatim(String),
}

/// A type expression, over the closed set of shapes the pass tells apart.
#[derive(Debug)]
pub enum TypeTree {
    Path(PathType),
    /// `[elem; len]`
    Array { elem: Box<TypeTree>, len: String },
    /// `[elem]`
    Slice(Box<TypeTree>),
    /// `&'lifetime mut elem`
    Reference { elem: Box<TypeTree>, lifetime: Option<String>, mutable: bool },
    /// `(elem)`
    Paren(Box<TypeTree>),
    /// `impl Bound + ...`
    ImplTrait(Vec<Bound>),
    /// A position marked with a wrapper: `Wrapper<inner>`.
    Wrapped(Marker, Box<TypeTree>),
    /// Any other shape, kept as written.
    Verbatim(String),
}

pub open spec fn marker_for(strict: bool) -> Marker {
    if strict {
        Marker::Strict
    } else {
        Marker::Semantic
    }
}

/// The single-argument containers the pass recognizes by name.
pub open spec fn is_container(name: Seq<char>) -> bool {
    name == "Vec"@ || name == "VecDeque"@ || name == "HashSet"@ || name == "BTreeSet"@
        || name == "LinkedList"@ || name == "Option"@ || name == "Result"@
}

/// The containers whose own position says whether a value may be absent.
pub open spec fn is_optional(name: Seq<char>) -> bool {
    name == "Option"@ || name == "Result"@
}

/// Whether `name` holds exactly the characters of `lit`.
pub fn is_named(name: &String, lit: &str) -> (r: bool)
    ensures
        r == (name@ == lit@),
{
    let owned = lit.to_owned();
    *name == owned
}

} // verus!
