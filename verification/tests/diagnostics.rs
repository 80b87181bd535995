use l2l_openapi::analyze::{analyze, Error, MethodError, ParamError};
use l2l_openapi::ast::{
    AttrDef, AttrValue, FnArg, FnDef, ItemDef, MetaArg, MetaInner, MetaItem, MetaLeaf, ParamDef,
    PatDef, TraitDef, TraitItemDef,
};
use l2l_openapi::diag::GrammarErrorKind;
use l2l_openapi::parse::{parse, ParseError};

fn s(x: &str) -> String {
    x.to_string()
}

fn param_dir_attr(span: usize, items: Vec<MetaItem>) -> AttrDef {
    AttrDef { name: s("open_api_method_arg"), span, value: AttrValue::List(items) }
}

fn schema_item(span: usize, inner: Vec<MetaInner>) -> MetaItem {
    MetaItem { key: s("schema"), span, value: MetaArg::List(inner) }
}

fn method_of(inputs: Vec<FnArg>) -> TraitItemDef {
    TraitItemDef::Func(FnDef { ident: s("m"), attrs: vec![], inputs, output: None })
}

fn trait_of(items: Vec<TraitItemDef>) -> TraitDef {
    TraitDef { ident: s("TestRpc"), items }
}

fn analyze_err(tr: TraitDef) -> Error {
    let ast = match parse(vec![], ItemDef::Trait(tr)) {
        Ok(ast) => ast,
        Err(_) => panic!("parse failed"),
    };
    match analyze(ast) {
        Ok(_) => panic!("expected the analysis to fail"),
        Err(e) => e,
    }
}

#[test]
fn unknown_schema_key_is_grammar_error() {
    let tr = trait_of(vec![method_of(vec![FnArg::Typed(ParamDef {
        attrs: vec![param_dir_attr(1, vec![schema_item(2, vec![MetaInner {
            key: s("unknown_key"),
            span: 7,
            value: MetaLeaf::Empty,
        }])])],
        pat: PatDef::Ident(s("x")),
        ty: s("u32"),
    })])]);
    let err = analyze_err(tr);
    assert_eq!(err.0.len(), 1);
    assert_eq!(err.0[0].0.len(), 1);
    match &err.0[0].0[0] {
        MethodError::ParamError(ParamError::AttrParseError(e)) => {
            assert_eq!(e.0.span, 7);
            match &e.0.kind {
                GrammarErrorKind::UnexpectedValue(k) => assert_eq!(k, "unknown_key"),
                _ => panic!("expected the unexpected-value diagnostic"),
            }
        },
        _ => panic!("expected a parameter grammar diagnostic"),
    }
}

#[test]
fn unexpected_outer_key_is_cited() {
    let tr = trait_of(vec![method_of(vec![FnArg::Typed(ParamDef {
        attrs: vec![param_dir_attr(1, vec![MetaItem {
            key: s("shema"),
            span: 4,
            value: MetaArg::Empty,
        }])],
        pat: PatDef::Ident(s("x")),
        ty: s("u32"),
    })])]);
    let err = analyze_err(tr);
    match &err.0[0].0[0] {
        MethodError::ParamError(ParamError::AttrParseError(e)) => {
            assert_eq!(e.0.span, 4);
            match &e.0.kind {
                GrammarErrorKind::UnexpectedKey(k) => assert_eq!(k, "shema"),
                _ => panic!("expected the unexpected-key diagnostic"),
            }
        },
        _ => panic!("expected a parameter grammar diagnostic"),
    }
}

#[test]
fn schema_key_set_twice_in_one_attribute() {
    let tr = trait_of(vec![method_of(vec![FnArg::Typed(ParamDef {
        attrs: vec![param_dir_attr(1, vec![
            schema_item(2, vec![MetaInner { key: s("PartialSchema"), span: 3, value: MetaLeaf::Empty }]),
            schema_item(5, vec![MetaInner { key: s("ToSchema"), span: 6, value: MetaLeaf::Empty }]),
        ])],
        pat: PatDef::Ident(s("x")),
        ty: s("u32"),
    })])]);
    let err = analyze_err(tr);
    match &err.0[0].0[0] {
        MethodError::ParamError(ParamError::AttrParseError(e)) => {
            assert_eq!(e.0.span, 5);
            match &e.0.kind {
                GrammarErrorKind::DuplicateKey(k) => assert_eq!(k, "schema"),
                _ => panic!("expected the duplicate-key diagnostic"),
            }
        },
        _ => panic!("expected a parameter grammar diagnostic"),
    }
}

#[test]
fn duplicate_param_attr_reported_at_second_occurrence() {
    let tr = trait_of(vec![method_of(vec![FnArg::Typed(ParamDef {
        attrs: vec![
            param_dir_attr(11, vec![schema_item(2, vec![MetaInner {
                key: s("PartialSchema"),
                span: 3,
                value: MetaLeaf::Empty,
            }])]),
            param_dir_attr(12, vec![schema_item(2, vec![MetaInner {
                key: s("ToSchema"),
                span: 3,
                value: MetaLeaf::Empty,
            }])]),
        ],
        pat: PatDef::Ident(s("x")),
        ty: s("u32"),
    })])]);
    let err = analyze_err(tr);
    assert_eq!(err.0[0].0.len(), 1);
    match &err.0[0].0[0] {
        MethodError::ParamError(ParamError::DuplicateAttr(span)) => assert_eq!(*span, 12),
        _ => panic!("expected the duplicate-attribute diagnostic"),
    }
}

#[test]
fn duplicate_method_attr_reported_at_second_occurrence() {
    let dir = |span: usize| AttrDef {
        name: s("open_api_method"),
        span,
        value: AttrValue::List(vec![MetaItem {
            key: s("output_schema"),
            span: 2,
            value: MetaArg::List(vec![MetaInner {
                key: s("ToSchema"),
                span: 3,
                value: MetaLeaf::Empty,
            }]),
        }]),
    };
    let tr = trait_of(vec![TraitItemDef::Func(FnDef {
        ident: s("m"),
        attrs: vec![dir(21), dir(22)],
        inputs: vec![FnArg::Receiver],
        output: Some(s("u32")),
    })]);
    let err = analyze_err(tr);
    assert_eq!(err.0[0].0.len(), 1);
    match &err.0[0].0[0] {
        MethodError::DuplicateAttr(span) => assert_eq!(*span, 22),
        _ => panic!("expected the duplicate-attribute diagnostic"),
    }
}

#[test]
fn non_ident_pattern_cites_pattern_text() {
    let tr = trait_of(vec![method_of(vec![FnArg::Typed(ParamDef {
        attrs: vec![],
        pat: PatDef::Other { text: s("(a, b)"), span: 8 },
        ty: s("(u32, u32)"),
    })])]);
    let err = analyze_err(tr);
    match &err.0[0].0[0] {
        MethodError::ParamError(ParamError::ExpectedPatIdent(PatDef::Other { text, span })) => {
            assert_eq!(text, "(a, b)");
            assert_eq!(*span, 8);
        },
        _ => panic!("expected the pattern diagnostic"),
    }
}

#[test]
fn errors_collected_across_methods() {
    let broken_param = |name: &str| {
        TraitItemDef::Func(FnDef {
            ident: s(name),
            attrs: vec![],
            inputs: vec![FnArg::Typed(ParamDef {
                attrs: vec![param_dir_attr(1, vec![schema_item(2, vec![MetaInner {
                    key: s("bad"),
                    span: 3,
                    value: MetaLeaf::Empty,
                }])])],
                pat: PatDef::Ident(s("x")),
                ty: s("u32"),
            })],
            output: None,
        })
    };
    let tr = trait_of(vec![
        broken_param("first"),
        TraitItemDef::Func(FnDef {
            ident: s("fine"),
            attrs: vec![],
            inputs: vec![FnArg::Receiver],
            output: None,
        }),
        broken_param("third"),
    ]);
    let err = analyze_err(tr);
    assert_eq!(err.0.len(), 2);
}

#[test]
fn attr_error_and_pattern_error_both_reported() {
    let tr = trait_of(vec![method_of(vec![FnArg::Typed(ParamDef {
        attrs: vec![param_dir_attr(1, vec![schema_item(2, vec![MetaInner {
            key: s("bad"),
            span: 3,
            value: MetaLeaf::Empty,
        }])])],
        pat: PatDef::Other { text: s("_"), span: 9 },
        ty: s("u32"),
    })])]);
    let err = analyze_err(tr);
    assert_eq!(err.0[0].0.len(), 2);
    assert!(matches!(&err.0[0].0[0], MethodError::ParamError(ParamError::AttrParseError(_))));
    assert!(matches!(
        &err.0[0].0[1],
        MethodError::ParamError(ParamError::ExpectedPatIdent(_))
    ));
}

#[test]
fn directive_without_parens_rejected() {
    let tr = trait_of(vec![method_of(vec![FnArg::Typed(ParamDef {
        attrs: vec![AttrDef { name: s("open_api_method_arg"), span: 5, value: AttrValue::Empty }],
        pat: PatDef::Ident(s("x")),
        ty: s("u32"),
    })])]);
    let err = analyze_err(tr);
    match &err.0[0].0[0] {
        MethodError::ParamError(ParamError::AttrParseError(e)) => {
            assert_eq!(e.0.span, 5);
            match &e.0.kind {
                GrammarErrorKind::ExpectedArgList(k) => assert_eq!(k, "open_api_method_arg"),
                _ => panic!("expected the argument-list diagnostic"),
            }
        },
        _ => panic!("expected a parameter grammar diagnostic"),
    }
}

#[test]
fn source_with_non_string_value_rejected() {
    let tr = trait_of(vec![method_of(vec![FnArg::Typed(ParamDef {
        attrs: vec![param_dir_attr(1, vec![schema_item(2, vec![MetaInner {
            key: s("PartialSchema"),
            span: 6,
            value: MetaLeaf::Other,
        }])])],
        pat: PatDef::Ident(s("x")),
        ty: s("u32"),
    })])]);
    let err = analyze_err(tr);
    match &err.0[0].0[0] {
        MethodError::ParamError(ParamError::AttrParseError(e)) => {
            assert_eq!(e.0.span, 6);
            match &e.0.kind {
                GrammarErrorKind::ExpectedStrValue(k) => assert_eq!(k, "PartialSchema"),
                _ => panic!("expected the string-value diagnostic"),
            }
        },
        _ => panic!("expected a parameter grammar diagnostic"),
    }
}

#[test]
fn unexpected_invocation_key_rejected() {
    let args = vec![MetaItem { key: s("ref_schema"), span: 1, value: MetaArg::Empty }];
    let tr = trait_of(vec![]);
    match parse(args, ItemDef::Trait(tr)) {
        Err(ParseError::Grammar(e)) => {
            assert_eq!(e.span, 1);
            match &e.kind {
                GrammarErrorKind::UnexpectedKey(k) => assert_eq!(k, "ref_schema"),
                _ => panic!("expected the unexpected-key diagnostic"),
            }
        },
        _ => panic!("expected a grammar diagnostic"),
    }
}

#[test]
fn ref_schemas_set_twice_rejected() {
    let mk = |span: usize| MetaItem {
        key: s("ref_schemas"),
        span,
        value: MetaArg::Types(vec![s("A")]),
    };
    let tr = trait_of(vec![]);
    match parse(vec![mk(1), mk(2)], ItemDef::Trait(tr)) {
        Err(ParseError::Grammar(e)) => {
            assert_eq!(e.span, 2);
            match &e.kind {
                GrammarErrorKind::DuplicateKey(k) => assert_eq!(k, "ref_schemas"),
                _ => panic!("expected the duplicate-key diagnostic"),
            }
        },
        _ => panic!("expected a grammar diagnostic"),
    }
}

#[test]
fn ref_schemas_needs_type_list() {
    let args = vec![MetaItem { key: s("ref_schemas"), span: 3, value: MetaArg::Str(s("A")) }];
    let tr = trait_of(vec![]);
    match parse(args, ItemDef::Trait(tr)) {
        Err(ParseError::Grammar(e)) => {
            assert_eq!(e.span, 3);
            assert!(matches!(&e.kind, GrammarErrorKind::ExpectedTypeList(_)));
        },
        _ => panic!("expected a grammar diagnostic"),
    }
}

#[test]
fn non_trait_item_rejected() {
    match parse(vec![], ItemDef::Other) {
        Err(ParseError::NotATrait) => {},
        _ => panic!("expected the not-a-trait failure"),
    }
}
