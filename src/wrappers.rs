//! The two wrapper types that mark a result's nullability, and the rules the
//! schema applies to them.
use vstd::prelude::*;
use vstd::string::StringExecFns;

verus! {

/// How the schema treats a type's nullability.
#[derive(Clone, Copy, Debug, PartialEq, Eq, Structural)]
pub enum SemanticNullability {
    /// No constraint.
    Unconstrained,
    /// Not null as an output.
    OutNonNull,
    /// Not null as an input.
    InNonNull,
    /// Not null either way.
    BothNonNull,
}

/// Marks a value as semantically non-null: it is not null in normal
/// operation, though null stays available to report a partial failure.
#[derive(Debug, PartialEq, Eq, Hash)]
pub struct SemanticNonNull<T>(pub T);

/// Marks a value as strictly non-null: a null value is reported as an error.
#[derive(Debug, PartialEq, Eq, Hash)]
pub struct StrictNonNull<T>(pub T);

/// `n` promoted one step toward non-null as an output.
pub open spec fn promoted(n: SemanticNullability) -> SemanticNullability {
    match n {
        SemanticNullability::Unconstrained => SemanticNullability::OutNonNull,
        SemanticNullability::OutNonNull => SemanticNullability::OutNonNull,
        SemanticNullability::InNonNull => SemanticNullability::BothNonNull,
        SemanticNullability::BothNonNull => SemanticNullability::BothNonNull,
    }
}

/// A place in a query document.
#[derive(Clone, Copy, Debug, PartialEq, Eq, Structural)]
pub struct Pos {
    pub line: usize,
    pub column: usize,
}

/// Why a strictly non-null field failed to resolve.
#[derive(Debug, PartialEq, Eq)]
pub enum ResolveError<E> {
    /// The wrapped value failed to resolve.
    Inner(E),
    /// The wrapped value resolved to null.
    Null { message: String, pos: Pos },
}

impl<T> SemanticNonNull<T> {
    /// The name shown in the schema: that of the wrapped type.
    pub fn display_name(inner: &str) -> (r: String)
        ensures
            r@ == inner@,
    {
        inner.to_owned()
    }

    /// The qualified name: that of the wrapped type, unchanged.
    pub fn qualified_type_name(inner: &str) -> (r: String)
        ensures
            r@ == inner@,
    {
        inner.to_owned()
    }

    /// The nullability of the wrapper, given that of the wrapped type.
    pub fn semantic_nullability(inner: SemanticNullability) -> (r: SemanticNullability)
        ensures
            r == promoted(inner),
    {
        match inner {
            SemanticNullability::Unconstrained => SemanticNullability::OutNonNull,
            SemanticNullability::OutNonNull => SemanticNullability::OutNonNull,
            SemanticNullability::InNonNull => SemanticNullability::BothNonNull,
            SemanticNullability::BothNonNull => SemanticNullability::BothNonNull,
        }
    }
}

impl<T> StrictNonNull<T> {
    /// The name shown in the schema: that of the wrapped type.
    pub fn display_name(inner: &str) -> (r: String)
        ensures
            r@ == inner@,
    {
        inner.to_owned()
    }

    /// The qualified name: that of the wrapped type with `!` appended.
    pub fn qualified_type_name(inner: &str) -> (r: String)
        ensures
            r@ == inner@ + "!"@,
    {
        let mut name = inner.to_owned();
        name.append("!");
        name
    }

    /// The nullability of the wrapper, whatever that of the wrapped type:
    /// the `!` of its name carries the constraint instead.
    pub fn semantic_nullability() -> (r: SemanticNullability)
        ensures
            r == SemanticNullability::Unconstrained,
    {
        SemanticNullability::Unconstrained
    }

    /// The result of resolving the field at `pos`, given what the wrapped value
    /// resolved to (`None` for null): a null becomes an error at `pos`; a
    /// value or an error passes through.
    pub fn resolve<V, E>(resolved: Result<Option<V>, E>, pos: Pos) -> (r: Result<V, ResolveError<E>>)
        ensures
            match resolved {
                Ok(Some(v)) => r == Ok::<V, ResolveError<E>>(v),
                Ok(None) => r is Err && r->Err_0 is Null && r->Err_0->pos == pos
                    && r->Err_0->message@ == "Expected to return non-null value, but got null"@,
                Err(e) => r == Err::<V, ResolveError<E>>(ResolveError::Inner(e)),
            },
    {
        match resolved {
            Ok(Some(v)) => Ok(v),
            Ok(None) => Err(
                ResolveError::Null {
                    message: "Expected to return non-null value, but got null".to_owned(),
                    pos,
                },
            ),
            Err(e) => Err(ResolveError::Inner(e)),
        }
    }
}

} // verus!
