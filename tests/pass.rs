use async_graphql_semantic_nullability::attrs::{AttrArgs, Attribute, MetaItem, MethodOptions, parse_options};
use async_graphql_semantic_nullability::block::{transform_impl, Diagnostic, Expansion, ImplBlock, ImplItem, SemanticNonNull};
use async_graphql_semantic_nullability::field::extract_field_type;
use async_graphql_semantic_nullability::method::{transform_method, Body, GraphQLAttrMacroType, Method, MethodError};
use async_graphql_semantic_nullability::types::{Bound, GenericArg, Marker, PathArgs, PathType, Segment, TypeTree};
use async_graphql_semantic_nullability::wrap::WrapError;

fn name(n: &str) -> TypeTree {
    TypeTree::Path(PathType {
        global: false,
        segments: vec![Segment { ident: n.to_string(), args: PathArgs::Bare }],
    })
}

fn generic(n: &str, args: Vec<TypeTree>) -> TypeTree {
    TypeTree::Path(PathType {
        global: false,
        segments: vec![Segment {
            ident: n.to_string(),
            args: PathArgs::Angle(args.into_iter().map(GenericArg::Type).collect()),
        }],
    })
}

fn semantic(t: TypeTree) -> TypeTree {
    TypeTree::Wrapped(Marker::Semantic, Box::new(t))
}

fn strict(t: TypeTree) -> TypeTree {
    TypeTree::Wrapped(Marker::Strict, Box::new(t))
}

fn show<T: std::fmt::Debug>(t: &T) -> String {
    format!("{:?}", t)
}

fn attr(path: &str, args: AttrArgs) -> Attribute {
    Attribute { global: false, path: vec![path.to_string()], args }
}

fn option_attr(items: Vec<MetaItem>) -> Attribute {
    attr("semantic_nullability", AttrArgs::List(items))
}

fn method(attrs: Vec<Attribute>, output: Option<TypeTree>) -> Method<&'static str> {
    Method { attrs, output, body: "body" }
}

fn stream_of(item: TypeTree) -> TypeTree {
    TypeTree::ImplTrait(vec![
        Bound::Trait(PathType {
            global: false,
            segments: vec![Segment {
                ident: "Stream".to_string(),
                args: PathArgs::Angle(vec![GenericArg::Assoc("Item".to_string(), item)]),
            }],
        }),
        Bound::Verbatim("Send".to_string()),
    ])
}

#[test]
fn list_of_optional_end_to_end() {
    let ret = generic("Vec", vec![generic("Option", vec![name("Foo")])]);
    let (out, err) = transform_method(method(vec![], Some(ret)), GraphQLAttrMacroType::Object);
    assert_eq!(err, None);
    let expected = semantic(generic("Vec", vec![semantic(generic("Option", vec![name("Foo")]))]));
    assert_eq!(show(&out.output), show(&Some(expected)));
    match out.body {
        Body::Reinterpret { body, from } => {
            assert_eq!(body, "body");
            assert_eq!(show(&from), show(&generic("Vec", vec![generic("Option", vec![name("Foo")])])));
        }
        other => panic!("unexpected body {:?}", other),
    }
}

#[test]
fn untyped_method_is_untouched() {
    let m = method(vec![attr("graphql", AttrArgs::Bare)], None);
    let (out, err) = transform_method(m, GraphQLAttrMacroType::Object);
    assert_eq!(err, None);
    assert!(out.output.is_none());
    assert_eq!(show(&out.attrs), show(&vec![attr("graphql", AttrArgs::Bare)]));
    assert!(matches!(out.body, Body::Unchanged("body")));
}

#[test]
fn strict_option_from_annotation() {
    let m = method(
        vec![option_attr(vec![MetaItem::Word("strict_non_null".to_string())])],
        Some(generic("Option", vec![name("Foo")])),
    );
    let (out, err) = transform_method(m, GraphQLAttrMacroType::Object);
    assert_eq!(err, None);
    assert!(out.attrs.is_empty());
    let expected = strict(generic("Option", vec![strict(name("Foo"))]));
    assert_eq!(show(&out.output), show(&Some(expected)));
}

#[test]
fn strict_flag_set_to_false_keeps_default() {
    let m = method(
        vec![option_attr(vec![MetaItem::Bool("strict_non_null".to_string(), false)])],
        Some(name("Foo")),
    );
    let (out, err) = transform_method(m, GraphQLAttrMacroType::Object);
    assert_eq!(err, None);
    assert_eq!(show(&out.output), show(&Some(semantic(name("Foo")))));
}

#[test]
fn malformed_options_are_reported_and_method_kept() {
    let m = method(
        vec![attr("doc", AttrArgs::Value("\"x\"".to_string())), option_attr(vec![MetaItem::Word("bogus".to_string())])],
        Some(name("Foo")),
    );
    let (out, err) = transform_method(m, GraphQLAttrMacroType::Object);
    assert_eq!(err, Some(MethodError::InvalidOptions));
    assert_eq!(show(&out.attrs), show(&vec![attr("doc", AttrArgs::Value("\"x\"".to_string()))]));
    assert_eq!(show(&out.output), show(&Some(name("Foo"))));
    assert!(matches!(out.body, Body::Unchanged("body")));
}

#[test]
fn option_parsing() {
    let parsed = |a: Attribute| parse_options(&a);
    assert_eq!(parsed(option_attr(vec![])), Some(MethodOptions { strict_non_null: false }));
    assert_eq!(
        parsed(option_attr(vec![MetaItem::Word("strict_non_null".to_string())])),
        Some(MethodOptions { strict_non_null: true })
    );
    assert_eq!(
        parsed(option_attr(vec![MetaItem::Bool("strict_non_null".to_string(), true)])),
        Some(MethodOptions { strict_non_null: true })
    );
    assert_eq!(
        parsed(option_attr(vec![
            MetaItem::Word("strict_non_null".to_string()),
            MetaItem::Word("strict_non_null".to_string())
        ])),
        None
    );
    assert_eq!(parsed(option_attr(vec![MetaItem::Verbatim("x(1)".to_string())])), None);
    assert_eq!(parsed(attr("semantic_nullability", AttrArgs::Bare)), None);
    assert_eq!(parsed(attr("semantic_nullability", AttrArgs::Value("1".to_string()))), None);
}

#[test]
fn container_without_arguments_in_method() {
    let (out, err) = transform_method(method(vec![], Some(name("HashSet"))), GraphQLAttrMacroType::Interface);
    assert_eq!(err, Some(MethodError::Wrap(WrapError::NoAngleArgs("HashSet".to_string()))));
    assert_eq!(show(&out.output), show(&Some(name("HashSet"))));
    assert!(matches!(out.body, Body::Unchanged("body")));
}

#[test]
fn paren_result_is_looked_through() {
    let ret = TypeTree::Paren(Box::new(name("Foo")));
    let (out, err) = transform_method(method(vec![], Some(ret)), GraphQLAttrMacroType::Object);
    assert_eq!(err, None);
    assert_eq!(show(&out.output), show(&Some(TypeTree::Paren(Box::new(semantic(name("Foo")))))));
    match out.body {
        Body::Reinterpret { from, .. } => assert_eq!(show(&from), show(&TypeTree::Paren(Box::new(name("Foo"))))),
        other => panic!("unexpected body {:?}", other),
    }
}

#[test]
fn other_shapes_have_no_field() {
    let ret = TypeTree::Verbatim("(u8, u16)".to_string());
    let (out, err) = transform_method(method(vec![], Some(ret)), GraphQLAttrMacroType::Object);
    assert_eq!(err, None);
    assert_eq!(show(&out.output), show(&Some(TypeTree::Verbatim("(u8, u16)".to_string()))));
    assert!(matches!(out.body, Body::Unchanged("body")));
}

#[test]
fn subscription_stream_items_are_wrapped() {
    let ret = stream_of(generic("Option", vec![name("i32")]));
    let (out, err) = transform_method(method(vec![], Some(ret)), GraphQLAttrMacroType::Subscription);
    assert_eq!(err, None);
    let new_item = semantic(generic("Option", vec![name("i32")]));
    assert_eq!(show(&out.output), show(&Some(stream_of(semantic(generic("Option", vec![name("i32")]))))));
    match out.body {
        Body::MapStream { body, from, to } => {
            assert_eq!(body, "body");
            assert_eq!(show(&from), show(&generic("Option", vec![name("i32")])));
            assert_eq!(show(&to), show(&new_item));
        }
        other => panic!("unexpected body {:?}", other),
    }
}

#[test]
fn stream_outside_subscription_is_not_a_field() {
    let r = extract_field_type(stream_of(name("i32")), false, false);
    assert!(r.is_none());
    let (out, err) = transform_method(method(vec![], Some(stream_of(name("i32")))), GraphQLAttrMacroType::Object);
    assert_eq!(err, None);
    assert_eq!(show(&out.output), show(&Some(stream_of(name("i32")))));
    assert!(matches!(out.body, Body::Unchanged("body")));
}

#[test]
fn impl_trait_without_stream_item_is_not_a_field() {
    let ret = TypeTree::ImplTrait(vec![Bound::Trait(PathType {
        global: false,
        segments: vec![Segment { ident: "Iterator".to_string(), args: PathArgs::Bare }],
    })]);
    assert!(extract_field_type(ret, true, false).is_none());
}

fn block(attrs: Vec<Attribute>, items: Vec<ImplItem<&'static str, u32>>) -> ImplBlock<&'static str, u32> {
    ImplBlock { attrs, items }
}

#[test]
fn errors_of_all_methods_are_gathered_in_order() {
    let items = vec![
        ImplItem::Method(method(vec![], Some(name("Vec")))),
        ImplItem::Other(7),
        ImplItem::Method(method(vec![], Some(name("Foo")))),
        ImplItem::Method(method(vec![option_attr(vec![MetaItem::Word("nope".to_string())])], Some(name("Foo")))),
    ];
    let (out, errors) = transform_impl(block(vec![], items), GraphQLAttrMacroType::Object);
    assert_eq!(
        errors,
        vec![
            Diagnostic { item: 0, error: MethodError::Wrap(WrapError::NoAngleArgs("Vec".to_string())) },
            Diagnostic { item: 3, error: MethodError::InvalidOptions },
        ]
    );
    assert_eq!(out.items.len(), 4);
    assert!(matches!(out.items[1], ImplItem::Other(7)));
    match &out.items[2] {
        ImplItem::Method(m) => assert_eq!(show(&m.output), show(&Some(semantic(name("Foo"))))),
        other => panic!("unexpected item {:?}", other),
    }
}

#[test]
fn single_annotation_gets_sentinel() {
    let attrs = vec![attr("doc", AttrArgs::Value("\"x\"".to_string())), attr("Object", AttrArgs::Bare)];
    let items = vec![ImplItem::Method(method(vec![], Some(name("Foo"))))];
    match SemanticNonNull(block(attrs, items)) {
        Expansion::Transformed(out, errors) => {
            assert!(errors.is_empty());
            let expected = vec![
                attr("doc", AttrArgs::Value("\"x\"".to_string())),
                attr("Object", AttrArgs::List(vec![MetaItem::Word("semantic_non_null".to_string())])),
            ];
            assert_eq!(show(&out.attrs), show(&expected));
            match &out.items[0] {
                ImplItem::Method(m) => assert_eq!(show(&m.output), show(&Some(semantic(name("Foo"))))),
                other => panic!("unexpected item {:?}", other),
            }
        }
        other => panic!("unexpected expansion {:?}", other),
    }
}

#[test]
fn sentinel_is_appended_to_existing_arguments() {
    let qualified = Attribute {
        global: true,
        path: vec!["async_graphql".to_string(), "Subscription".to_string()],
        args: AttrArgs::List(vec![MetaItem::Verbatim("name = \"S\"".to_string())]),
    };
    let items = vec![ImplItem::Method(method(vec![], Some(stream_of(name("i32")))))];
    match SemanticNonNull(block(vec![qualified], items)) {
        Expansion::Transformed(out, errors) => {
            assert!(errors.is_empty());
            let expected = Attribute {
                global: true,
                path: vec!["async_graphql".to_string(), "Subscription".to_string()],
                args: AttrArgs::List(vec![
                    MetaItem::Verbatim("name = \"S\"".to_string()),
                    MetaItem::Word("semantic_non_null".to_string()),
                ]),
            };
            assert_eq!(show(&out.attrs), show(&vec![expected]));
            match &out.items[0] {
                ImplItem::Method(m) => assert!(matches!(m.body, Body::MapStream { .. })),
                other => panic!("unexpected item {:?}", other),
            }
        }
        other => panic!("unexpected expansion {:?}", other),
    }
}

#[test]
fn two_annotations_conflict() {
    let attrs = vec![attr("Object", AttrArgs::Bare), attr("doc", AttrArgs::Bare), attr("Subscription", AttrArgs::Bare)];
    let items = vec![ImplItem::Method(method(vec![], Some(name("Foo"))))];
    assert!(matches!(SemanticNonNull(block(attrs, items)), Expansion::Conflict { index: 2 }));
}

#[test]
fn missing_annotation_is_unsupported() {
    let attrs = vec![attr("doc", AttrArgs::Bare), attr("Object", AttrArgs::Value("1".to_string()))];
    let items = vec![ImplItem::Method(method(vec![], Some(name("Foo"))))];
    match SemanticNonNull(block(attrs, items)) {
        Expansion::Unsupported(b) => {
            assert_eq!(b.attrs.len(), 2);
            match &b.items[0] {
                ImplItem::Method(m) => assert_eq!(show(&m.output), show(&Some(name("Foo")))),
                other => panic!("unexpected item {:?}", other),
            }
        }
        other => panic!("unexpected expansion {:?}", other),
    }
}
