use l2l_openapi::analyze::{analyze, Model, SchemaSource};
use l2l_openapi::ast::{
    AttrDef, AttrValue, FnArg, FnDef, ItemDef, MetaArg, MetaInner, MetaItem, MetaLeaf, ParamDef,
    PatDef, TraitDef, TraitItemDef,
};
use l2l_openapi::codegen::{
    codegen, Capability, OpenApiDoc, Operation, RequestBodySchema, Rust, SchemaExpr, TypeExpr,
};
use l2l_openapi::lower::lower;
use l2l_openapi::parse::parse;

fn s(x: &str) -> String {
    x.to_string()
}

fn doc_attr(text: &str) -> AttrDef {
    AttrDef { name: s("doc"), span: 0, value: AttrValue::Str(s(text)) }
}

fn plain_attr(name: &str) -> AttrDef {
    AttrDef { name: s(name), span: 0, value: AttrValue::Other }
}

fn source_item(key: &str, override_ty: Option<&str>) -> MetaInner {
    MetaInner {
        key: s(key),
        span: 3,
        value: match override_ty {
            Some(t) => MetaLeaf::Str(s(t)),
            None => MetaLeaf::Empty,
        },
    }
}

fn param_dir_attr(span: usize, inner: Vec<MetaInner>) -> AttrDef {
    AttrDef {
        name: s("open_api_method_arg"),
        span,
        value: AttrValue::List(vec![MetaItem { key: s("schema"), span: 2, value: MetaArg::List(
            inner,
        ) }]),
    }
}

fn method_dir_attr(span: usize, inner: Vec<MetaInner>) -> AttrDef {
    AttrDef {
        name: s("open_api_method"),
        span,
        value: AttrValue::List(vec![MetaItem {
            key: s("output_schema"),
            span: 2,
            value: MetaArg::List(inner),
        }]),
    }
}

fn param(name: &str, ty: &str, attrs: Vec<AttrDef>) -> FnArg {
    FnArg::Typed(ParamDef { attrs, pat: PatDef::Ident(s(name)), ty: s(ty) })
}

fn method(name: &str, attrs: Vec<AttrDef>, inputs: Vec<FnArg>, output: Option<&str>) -> TraitItemDef {
    TraitItemDef::Func(FnDef { ident: s(name), attrs, inputs, output: output.map(s) })
}

fn rpc_trait(name: &str, items: Vec<TraitItemDef>) -> TraitDef {
    TraitDef { ident: s(name), items }
}

fn ref_schemas_arg(tys: Vec<&str>) -> MetaItem {
    MetaItem {
        key: s("ref_schemas"),
        span: 9,
        value: MetaArg::Types(tys.into_iter().map(s).collect()),
    }
}

fn run(args: Vec<MetaItem>, tr: TraitDef) -> Rust {
    let ast = match parse(args, ItemDef::Trait(tr)) {
        Ok(ast) => ast,
        Err(_) => panic!("parse failed"),
    };
    let model = match analyze(ast) {
        Ok(model) => model,
        Err(_) => panic!("analysis failed"),
    };
    codegen(lower(model))
}

fn run_model(args: Vec<MetaItem>, tr: TraitDef) -> Model {
    let ast = match parse(args, ItemDef::Trait(tr)) {
        Ok(ast) => ast,
        Err(_) => panic!("parse failed"),
    };
    match analyze(ast) {
        Ok(model) => model,
        Err(_) => panic!("analysis failed"),
    }
}

fn operation<'a>(doc: &'a OpenApiDoc, name: &str) -> &'a Operation {
    for p in &doc.paths {
        if p.name == name {
            return &p.operation;
        }
    }
    panic!("no path for method");
}

fn assert_declared_partial(e: &SchemaExpr, ty: &str) {
    assert!(matches!(e.capability, Capability::Partial));
    match &e.ty {
        TypeExpr::Declared(t) => assert_eq!(t, ty),
        _ => panic!("expected declared type"),
    }
}

#[test]
fn round_trip_shapes() {
    let tr = rpc_trait(
        "TestRpc",
        vec![
            method("no_params", vec![], vec![FnArg::Receiver], Some("Unit")),
            method("single", vec![], vec![FnArg::Receiver, param("x", "U64", vec![])], Some("U64")),
            method(
                "multi",
                vec![],
                vec![FnArg::Receiver, param("a", "U64", vec![]), param("b", "U32", vec![])],
                Some("U32"),
            ),
            method("no_response", vec![], vec![FnArg::Receiver, param("x", "U32", vec![])], None),
        ],
    );
    let rust = run(vec![], tr);
    let doc = &rust.doc;
    assert_eq!(doc.paths.len(), 4);

    let no_params = operation(doc, "no_params");
    assert!(no_params.request_body.is_none());
    assert!(no_params.response.is_some());

    let single = operation(doc, "single");
    match &single.request_body {
        Some(RequestBodySchema::Direct(e)) => assert_declared_partial(e, "U64"),
        _ => panic!("expected direct body schema"),
    }

    let multi = operation(doc, "multi");
    match &multi.request_body {
        Some(RequestBodySchema::Object(props)) => {
            assert_eq!(props.len(), 2);
            assert_eq!(props[0].name, "a");
            assert_eq!(props[1].name, "b");
            assert_declared_partial(&props[0].schema, "U64");
            assert_declared_partial(&props[1].schema, "U32");
        },
        _ => panic!("expected object body schema"),
    }

    let no_response = operation(doc, "no_response");
    assert!(no_response.response.is_none());
    assert!(no_response.request_body.is_some());
}

#[test]
fn response_unwraps_declared_type() {
    let tr = rpc_trait(
        "TestRpc",
        vec![method("single", vec![], vec![FnArg::Receiver, param("x", "u64", vec![])], Some(
            "RpcResult<u64>",
        ))],
    );
    let rust = run(vec![], tr);
    let op = operation(&rust.doc, "single");
    match &op.response {
        Some(e) => {
            assert!(matches!(e.capability, Capability::Partial));
            match &e.ty {
                TypeExpr::ResponsePayload(t) => assert_eq!(t, "RpcResult<u64>"),
                _ => panic!("expected response payload type"),
            }
        },
        None => panic!("expected a response"),
    }
}

#[test]
fn operation_id_uses_declared_name() {
    let tr = rpc_trait(
        "TestRpc",
        vec![method(
            "rust_method_name",
            vec![plain_attr("method")],
            vec![FnArg::Receiver, param("x", "u32", vec![])],
            Some("RpcResult<u32>"),
        )],
    );
    let rust = run(vec![], tr);
    assert_eq!(rust.doc.paths[0].name, "rust_method_name");
    assert_eq!(rust.doc.paths[0].operation.operation_id, "rust_method_name");
}

#[test]
fn ref_schemas_registered_in_order() {
    let tr = rpc_trait("TestRpc", vec![]);
    let rust = run(vec![ref_schemas_arg(vec!["Inner0", "Inner1"])], tr);
    assert_eq!(rust.doc.components.len(), 2);
    assert_eq!(rust.doc.components[0], "Inner0");
    assert_eq!(rust.doc.components[1], "Inner1");
}

#[test]
fn no_ref_schemas_no_components() {
    let tr = rpc_trait("TestRpc", vec![]);
    let rust = run(vec![], tr);
    assert!(rust.doc.components.is_empty());
}

#[test]
fn doc_type_named_after_trait() {
    let tr = rpc_trait("TestRpc", vec![]);
    let rust = run(vec![], tr);
    assert_eq!(rust.doc.struct_ident, "TestRpcDoc");
}

#[test]
fn doc_comments_joined_and_trimmed() {
    let tr = rpc_trait(
        "TestRpc",
        vec![method(
            "documented",
            vec![doc_attr(" Doc comment "), doc_attr("  second line")],
            vec![FnArg::Receiver],
            None,
        )],
    );
    let rust = run(vec![], tr);
    let op = operation(&rust.doc, "documented");
    assert_eq!(op.description.as_deref(), Some("Doc comment\nsecond line"));
}

#[test]
fn no_doc_comment_no_description() {
    let tr = rpc_trait(
        "TestRpc",
        vec![method("bare", vec![plain_attr("method")], vec![FnArg::Receiver], None)],
    );
    let rust = run(vec![], tr);
    assert!(operation(&rust.doc, "bare").description.is_none());
}

#[test]
fn param_override_schema_used() {
    let tr = rpc_trait(
        "TestRpc",
        vec![method(
            "socketaddr_param",
            vec![],
            vec![
                FnArg::Receiver,
                param(
                    "socket_addr",
                    "SocketAddr",
                    vec![param_dir_attr(1, vec![source_item(
                        "PartialSchema",
                        Some("SocketAddrSchema"),
                    )])],
                ),
            ],
            Some("RpcResult<u32>"),
        )],
    );
    let rust = run(vec![], tr);
    let op = operation(&rust.doc, "socketaddr_param");
    match &op.request_body {
        Some(RequestBodySchema::Direct(e)) => assert_declared_partial(e, "SocketAddrSchema"),
        _ => panic!("expected direct body schema"),
    }
}

#[test]
fn output_schema_to_schema_used() {
    let tr = rpc_trait(
        "TestRpc",
        vec![method(
            "result_unit",
            vec![method_dir_attr(1, vec![source_item("ToSchema", None)])],
            vec![FnArg::Receiver, param("x", "u32", vec![])],
            Some("RpcResult<()>"),
        )],
    );
    let rust = run(vec![], tr);
    let op = operation(&rust.doc, "result_unit");
    match &op.response {
        Some(e) => {
            assert!(matches!(e.capability, Capability::ToSchema));
            match &e.ty {
                TypeExpr::ResponsePayload(t) => assert_eq!(t, "RpcResult<()>"),
                _ => panic!("expected response payload type"),
            }
        },
        None => panic!("expected a response"),
    }
}

#[test]
fn output_schema_override_replaces_payload() {
    let tr = rpc_trait(
        "TestRpc",
        vec![method(
            "result_socketaddr",
            vec![method_dir_attr(1, vec![source_item("PartialSchema", Some("SocketAddrSchema"))])],
            vec![FnArg::Receiver, param("x", "u32", vec![])],
            Some("RpcResult<SocketAddr>"),
        )],
    );
    let rust = run(vec![], tr);
    let op = operation(&rust.doc, "result_socketaddr");
    match &op.response {
        Some(e) => assert_declared_partial(e, "SocketAddrSchema"),
        None => panic!("expected a response"),
    }
}

#[test]
fn empty_schema_directive_keeps_default() {
    let tr = rpc_trait(
        "TestRpc",
        vec![method(
            "defaulted",
            vec![],
            vec![FnArg::Receiver, param("x", "u32", vec![param_dir_attr(1, vec![])])],
            None,
        )],
    );
    let model = run_model(vec![], tr);
    match &model.methods[0].params[0].schema_source {
        SchemaSource::Partial(None) => {},
        _ => panic!("expected the default schema source"),
    }
}

#[test]
fn directives_stripped_from_interface() {
    let tr = rpc_trait(
        "TestRpc",
        vec![method(
            "m",
            vec![doc_attr("kept"), method_dir_attr(1, vec![source_item("ToSchema", None)]),
                plain_attr("method")],
            vec![
                FnArg::Receiver,
                param("x", "u32", vec![param_dir_attr(1, vec![source_item("PartialSchema", None)])]),
            ],
            Some("RpcResult<u32>"),
        )],
    );
    let model = run_model(vec![], tr);
    match &model.item_trait.items[0] {
        TraitItemDef::Func(f) => {
            assert_eq!(f.attrs.len(), 2);
            assert_eq!(f.attrs[0].name, "doc");
            assert_eq!(f.attrs[1].name, "method");
            match &f.inputs[1] {
                FnArg::Typed(p) => assert!(p.attrs.is_empty()),
                _ => panic!("expected a typed parameter"),
            }
        },
        _ => panic!("expected a method item"),
    }
}

#[test]
fn non_method_items_pass_through() {
    let tr = rpc_trait(
        "TestRpc",
        vec![TraitItemDef::Other, method("m", vec![], vec![FnArg::Receiver], None)],
    );
    let model = run_model(vec![], tr);
    assert_eq!(model.methods.len(), 1);
    assert_eq!(model.item_trait.items.len(), 2);
    assert!(matches!(model.item_trait.items[0], TraitItemDef::Other));
}

#[test]
fn later_source_item_overrides_earlier() {
    let tr = rpc_trait(
        "TestRpc",
        vec![method(
            "m",
            vec![],
            vec![FnArg::Receiver, param("x", "u32", vec![param_dir_attr(1, vec![
                source_item("PartialSchema", None),
                source_item("ToSchema", Some("Override")),
            ])])],
            None,
        )],
    );
    let model = run_model(vec![], tr);
    match &model.methods[0].params[0].schema_source {
        SchemaSource::ToSchema(Some(t)) => assert_eq!(t, "Override"),
        _ => panic!("expected the overriding source"),
    }
}

#[test]
fn method_entries_follow_declaration_order() {
    let tr = rpc_trait(
        "TestRpc",
        vec![
            method("first", vec![], vec![FnArg::Receiver], None),
            method("second", vec![], vec![FnArg::Receiver], None),
        ],
    );
    let rust = run(vec![], tr);
    assert_eq!(rust.doc.paths[0].name, "first");
    assert_eq!(rust.doc.paths[1].name, "second");
}

#[test]
fn lower_preserves_model() {
    let tr = rpc_trait("TestRpc", vec![method("m", vec![], vec![FnArg::Receiver], None)]);
    let model = run_model(vec![ref_schemas_arg(vec!["A"])], tr);
    let ir = lower(model);
    assert_eq!(ir.ref_schema_tys.len(), 1);
    assert_eq!(ir.ref_schema_tys[0], "A");
    assert_eq!(ir.methods.len(), 1);
    assert_eq!(ir.methods[0].ident, "m");
    assert_eq!(ir.item_trait.ident, "TestRpc");
}

#[test]
fn trait_passes_through_unchanged_but_for_directives() {
    let tr = rpc_trait(
        "TestRpc",
        vec![method("m", vec![doc_attr("kept")], vec![FnArg::Receiver, param("x", "u64", vec![])],
            Some("u64"))],
    );
    let rust = run(vec![], tr);
    assert_eq!(rust.item_trait.ident, "TestRpc");
    match &rust.item_trait.items[0] {
        TraitItemDef::Func(f) => {
            assert_eq!(f.ident, "m");
            assert_eq!(f.output.as_deref(), Some("u64"));
            assert_eq!(f.attrs.len(), 1);
        },
        _ => panic!("expected a method item"),
    }
}

#[test]
fn model_methods_named_after_declarations() {
    let tr = rpc_trait("TestRpc", vec![method("alpha", vec![], vec![FnArg::Receiver], None)]);
    let model = run_model(vec![], tr);
    let names: Vec<String> = model.methods.iter().map(|m| m.ident.clone()).collect();
    assert_eq!(names, vec!["alpha".to_string()]);
}
