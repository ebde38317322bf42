use async_graphql_semantic_nullability::wrappers::{Pos, ResolveError, SemanticNonNull, SemanticNullability, StrictNonNull};

#[test]
fn semantic_wrapper_promotes_nullability() {
    let promote = SemanticNonNull::<()>::semantic_nullability;
    assert_eq!(promote(SemanticNullability::Unconstrained), SemanticNullability::OutNonNull);
    assert_eq!(promote(SemanticNullability::OutNonNull), SemanticNullability::OutNonNull);
    assert_eq!(promote(SemanticNullability::InNonNull), SemanticNullability::BothNonNull);
    assert_eq!(promote(SemanticNullability::BothNonNull), SemanticNullability::BothNonNull);
}

#[test]
fn strict_wrapper_reports_no_constraint() {
    assert_eq!(StrictNonNull::<()>::semantic_nullability(), SemanticNullability::Unconstrained);
}

#[test]
fn wrapper_names() {
    assert_eq!(SemanticNonNull::<()>::display_name("Foo"), "Foo");
    assert_eq!(SemanticNonNull::<()>::qualified_type_name("Foo"), "Foo");
    assert_eq!(StrictNonNull::<()>::display_name("Foo"), "Foo");
    assert_eq!(StrictNonNull::<()>::qualified_type_name("Foo"), "Foo!");
}

#[test]
fn strict_resolution() {
    let pos = Pos { line: 3, column: 7 };
    let ok: Result<Option<u32>, String> = Ok(Some(5));
    assert_eq!(StrictNonNull::<()>::resolve(ok, pos), Ok(5));
    let null: Result<Option<u32>, String> = Ok(None);
    assert_eq!(
        StrictNonNull::<()>::resolve(null, pos),
        Err(ResolveError::Null { message: "Expected to return non-null value, but got null".to_string(), pos })
    );
    let failed: Result<Option<u32>, String> = Err("boom".to_string());
    assert_eq!(StrictNonNull::<()>::resolve(failed, pos), Err(ResolveError::Inner("boom".to_string())));
}

#[test]
fn wrappers_compare_by_contents() {
    assert_eq!(SemanticNonNull(3), SemanticNonNull(3));
    assert_ne!(StrictNonNull("a"), StrictNonNull("b"));
}
