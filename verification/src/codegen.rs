//! Generation of the documentation artifact's description.
//!
//! For each method, in declaration order, one operation is built: its
//! `operation_id` is the declared textual identifier (deliberately not any
//! wire-level rename a transport annotation may carry — a documented
//! limitation), its description is the method's, its request body is
//! derived from the parameters, and its response from the output. Each
//! method occupies one path, keyed by its textual name, with the single
//! operation registered under the one fixed HTTP-style verb (POST). The
//! components collection registers one schema per reference-schema type, in
//! declaration order, each through its own named-schema capability.
//!
//! The result is a plain description of the artifact; the host front end
//! renders it as source text that builds the document through the schema
//! library's builders.

use vstd::prelude::*;

use crate::analyze::{
    Method, MethodOutput, MethodOutputView, MethodParam, MethodParamView, MethodView, SchemaSource,
    SchemaSourceView,
};
use crate::ast::{TraitDef, TraitDefView};
use crate::lower::{Ir, IrView};
use crate::text::{append_doc_suffix, duplicate_strings};

verus! {

/// Which schema-derivation capability an emitted schema expression
/// invokes.
pub enum Capability {
    /// The lightweight capability: a schema without an identity.
    Partial,
    /// The richer capability, of which only the schema component is kept,
    /// its name discarded: inline schemas are unnamed.
    ToSchema,
}

impl View for Capability {
    type V = Capability;

    open spec fn view(&self) -> Capability {
        *self
    }
}

impl Clone for Capability {
    fn clone(&self) -> (r: Self)
        ensures
            r == *self,
    {
        match self {
            Capability::Partial => Capability::Partial,
            Capability::ToSchema => Capability::ToSchema,
        }
    }
}

impl Copy for Capability {

}

/// The type an emitted schema expression derives the schema of.
pub enum TypeExpr {
    /// The type as declared (or as named by a directive override).
    Declared(String),
    /// The transport capability's protocol-level response payload of the
    /// declared return type: the declared type with its response envelope
    /// unwrapped.
    ResponsePayload(String),
}

pub enum TypeExprView {
    Declared(Seq<char>),
    ResponsePayload(Seq<char>),
}

impl View for TypeExpr {
    type V = TypeExprView;

    open spec fn view(&self) -> TypeExprView {
        match self {
            TypeExpr::Declared(t) => TypeExprView::Declared(t@),
            TypeExpr::ResponsePayload(t) => TypeExprView::ResponsePayload(t@),
        }
    }
}

impl DeepView for TypeExpr {
    type V = TypeExprView;

    open spec fn deep_view(&self) -> TypeExprView {
        self.view()
    }
}

/// One emitted schema expression: a capability invoked on a type.
pub struct SchemaExpr {
    pub capability: Capability,
    pub ty: TypeExpr,
}

pub struct SchemaExprView {
    pub capability: Capability,
    pub ty: TypeExprView,
}

impl View for SchemaExpr {
    type V = SchemaExprView;

    open spec fn view(&self) -> SchemaExprView {
        SchemaExprView { capability: self.capability, ty: self.ty@ }
    }
}

impl DeepView for SchemaExpr {
    type V = SchemaExprView;

    open spec fn deep_view(&self) -> SchemaExprView {
        self.view()
    }
}

/// One property of a synthesized object schema.
pub struct Property {
    pub name: String,
    pub schema: SchemaExpr,
}

pub struct PropertyView {
    pub name: Seq<char>,
    pub schema: SchemaExprView,
}

impl View for Property {
    type V = PropertyView;

    open spec fn view(&self) -> PropertyView {
        PropertyView { name: self.name@, schema: self.schema@ }
    }
}

impl DeepView for Property {
    type V = PropertyView;

    open spec fn deep_view(&self) -> PropertyView {
        self.view()
    }
}

/// The request body schema of an operation.
pub enum RequestBodySchema {
    /// Exactly one parameter: its schema stands directly, not
    /// object-wrapped.
    Direct(SchemaExpr),
    /// Two or more parameters: an object schema mapping each parameter's
    /// textual name to its schema, in declaration order.
    Object(Vec<Property>),
}

pub enum RequestBodySchemaView {
    Direct(SchemaExprView),
    Object(Seq<PropertyView>),
}

impl View for RequestBodySchema {
    type V = RequestBodySchemaView;

    open spec fn view(&self) -> RequestBodySchemaView {
        match self {
            RequestBodySchema::Direct(s) => RequestBodySchemaView::Direct(s@),
            RequestBodySchema::Object(props) => RequestBodySchemaView::Object(props.deep_view()),
        }
    }
}

impl DeepView for RequestBodySchema {
    type V = RequestBodySchemaView;

    open spec fn deep_view(&self) -> RequestBodySchemaView {
        self.view()
    }
}

/// One documented operation.
pub struct Operation {
    /// The method's declared textual identifier.
    pub operation_id: String,
    /// The method's doc-comment description, if any.
    pub description: Option<String>,
    /// Absent exactly when the method declares no parameter.
    pub request_body: Option<RequestBodySchema>,
    /// The schema registered as the "200" response; absent exactly when
    /// the method declares no return type.
    pub response: Option<SchemaExpr>,
}

pub struct OperationView {
    pub operation_id: Seq<char>,
    pub description: Option<Seq<char>>,
    pub request_body: Option<RequestBodySchemaView>,
    pub response: Option<SchemaExprView>,
}

impl View for Operation {
    type V = OperationView;

    open spec fn view(&self) -> OperationView {
        OperationView {
            operation_id: self.operation_id@,
            description: self.description.deep_view(),
            request_body: self.request_body.deep_view(),
            response: self.response.deep_view(),
        }
    }
}

impl DeepView for Operation {
    type V = OperationView;

    open spec fn deep_view(&self) -> OperationView {
        self.view()
    }
}

/// One path of the document: the method's textual name and its single
/// operation, registered under the fixed POST verb.
pub struct DocPath {
    pub name: String,
    pub operation: Operation,
}

pub struct DocPathView {
    pub name: Seq<char>,
    pub operation: OperationView,
}

impl View for DocPath {
    type V = DocPathView;

    open spec fn view(&self) -> DocPathView {
        DocPathView { name: self.name@, operation: self.operation@ }
    }
}

impl DeepView for DocPath {
    type V = DocPathView;

    open spec fn deep_view(&self) -> DocPathView {
        self.view()
    }
}

/// The description of the generated document type: its name, its paths in
/// method declaration order, and its registered component schemas in
/// declaration order.
pub struct OpenApiDoc {
    /// The generated type's name: the interface's own name with the fixed
    /// suffix appended.
    pub struct_ident: String,
    pub paths: Vec<DocPath>,
    pub components: Vec<String>,
}

pub struct OpenApiDocView {
    pub struct_ident: Seq<char>,
    pub paths: Seq<DocPathView>,
    pub components: Seq<Seq<char>>,
}

impl View for OpenApiDoc {
    type V = OpenApiDocView;

    open spec fn view(&self) -> OpenApiDocView {
        OpenApiDocView {
            struct_ident: self.struct_ident@,
            paths: self.paths.deep_view(),
            components: self.components.deep_view(),
        }
    }
}

impl DeepView for OpenApiDoc {
    type V = OpenApiDocView;

    open spec fn deep_view(&self) -> OpenApiDocView {
        self.view()
    }
}

/// The whole emitted artifact: the attribute-stripped interface definition,
/// unchanged otherwise, followed by the document type's description.
pub struct Rust {
    pub item_trait: TraitDef,
    pub doc: OpenApiDoc,
}

pub struct RustView {
    pub item_trait: TraitDefView,
    pub doc: OpenApiDocView,
}

impl View for Rust {
    type V = RustView;

    open spec fn view(&self) -> RustView {
        RustView { item_trait: self.item_trait@, doc: self.doc@ }
    }
}

impl DeepView for Rust {
    type V = RustView;

    open spec fn deep_view(&self) -> RustView {
        self.view()
    }
}

/// The schema expression a source and a fallback type resolve to: an
/// override type named by the directive replaces the fallback entirely.
pub open spec fn spec_schema_expr(source: SchemaSourceView, ty: TypeExprView) -> SchemaExprView {
    match source {
        SchemaSourceView::Partial(over) => match over {
            Option::Some(t) => SchemaExprView {
                capability: Capability::Partial,
                ty: TypeExprView::Declared(t),
            },
            Option::None => SchemaExprView { capability: Capability::Partial, ty },
        },
        SchemaSourceView::ToSchema(over) => match over {
            Option::Some(t) => SchemaExprView {
                capability: Capability::ToSchema,
                ty: TypeExprView::Declared(t),
            },
            Option::None => SchemaExprView { capability: Capability::ToSchema, ty },
        },
    }
}

/// The schema expression of a method parameter: its resolved source on its
/// declared type.
pub open spec fn spec_param_schema(p: MethodParamView) -> SchemaExprView {
    spec_schema_expr(p.schema_source, TypeExprView::Declared(p.ty))
}

/// The schema expression of a method output: its resolved source on the
/// protocol-level response payload of its declared type.
pub open spec fn spec_output_schema(o: MethodOutputView) -> SchemaExprView {
    spec_schema_expr(o.schema_source, TypeExprView::ResponsePayload(o.ty))
}

/// The request body of an operation: absent without parameters, the single
/// parameter's schema directly, or an object over the parameters in
/// declaration order.
pub open spec fn spec_request_body(params: Seq<MethodParamView>) -> Option<RequestBodySchemaView> {
    if params.len() == 0 {
        Option::<RequestBodySchemaView>::None
    } else if params.len() == 1 {
        Option::Some(RequestBodySchemaView::Direct(spec_param_schema(params[0])))
    } else {
        Option::Some(
            RequestBodySchemaView::Object(
                params.map_values(
                    |p: MethodParamView| PropertyView { name: p.ident, schema: spec_param_schema(p) },
                ),
            ),
        )
    }
}

/// The operation one method generates.
pub open spec fn spec_operation(m: MethodView) -> OperationView {
    OperationView {
        operation_id: m.ident,
        description: m.description,
        request_body: spec_request_body(m.params),
        response: match m.output {
            Option::Some(o) => Option::Some(spec_output_schema(o)),
            Option::None => Option::<SchemaExprView>::None,
        },
    }
}

/// The document description an intermediate representation generates.
pub open spec fn spec_gen_doc(ir: IrView) -> OpenApiDocView {
    OpenApiDocView {
        struct_ident: ir.item_trait.ident + "Doc"@,
        paths: ir.methods.map_values(
            |m: MethodView| DocPathView { name: m.ident, operation: spec_operation(m) },
        ),
        components: ir.ref_schema_tys,
    }
}

/// The whole emitted artifact an intermediate representation generates.
pub open spec fn spec_codegen(ir: IrView) -> RustView {
    RustView { item_trait: ir.item_trait, doc: spec_gen_doc(ir) }
}

/// The schema expression for a source and a fallback type.
pub fn schema_expr(source: &SchemaSource, ty: TypeExpr) -> (r: SchemaExpr)
    ensures
        r@ == spec_schema_expr(source@, ty@),
{
    match source {
        SchemaSource::Partial(over) => match over {
            Some(t) => SchemaExpr {
                capability: Capability::Partial,
                ty: TypeExpr::Declared(t.clone()),
            },
            None => SchemaExpr { capability: Capability::Partial, ty },
        },
        SchemaSource::ToSchema(over) => match over {
            Some(t) => SchemaExpr {
                capability: Capability::ToSchema,
                ty: TypeExpr::Declared(t.clone()),
            },
            None => SchemaExpr { capability: Capability::ToSchema, ty },
        },
    }
}

/// The schema expression of a method parameter.
pub fn method_param_schema_expr(method_param: &MethodParam) -> (r: SchemaExpr)
    ensures
        r@ == spec_param_schema(method_param@),
{
    schema_expr(&method_param.schema_source, TypeExpr::Declared(method_param.ty.clone()))
}

/// The schema expression of a method output.
pub fn method_output_schema_expr(method_output: &MethodOutput) -> (r: SchemaExpr)
    ensures
        r@ == spec_output_schema(method_output@),
{
    schema_expr(
        &method_output.schema_source,
        TypeExpr::ResponsePayload(method_output.ty.clone()),
    )
}

fn gen_operation(method: &Method) -> (r: Operation)
    ensures
        r@ == spec_operation(method@),
{
    let description = match &method.description {
        Some(d) => Some(d.clone()),
        None => None,
    };
    let request_body = if method.params.len() == 0 {
        None
    } else if method.params.len() == 1 {
        Some(RequestBodySchema::Direct(method_param_schema_expr(&method.params[0])))
    } else {
        let ghost pv = method@.params;
        let ghost mapped = pv.map_values(
            |p: MethodParamView| PropertyView { name: p.ident, schema: spec_param_schema(p) },
        );
        let mut props: Vec<Property> = Vec::new();
        let mut i: usize = 0;
        while i < method.params.len()
            invariant
                0 <= i <= method.params.len(),
                pv == method@.params,
                pv.len() == method.params@.len(),
                mapped == pv.map_values(
                    |p: MethodParamView| PropertyView {
                        name: p.ident,
                        schema: spec_param_schema(p),
                    },
                ),
                props@.len() == i,
                forall|j: int| 0 <= j < i ==> props@[j]@ == mapped[j],
            decreases method.params.len() - i,
        {
            proof {
                assert(pv[i as int] == method.params@[i as int]@);
            }
            let p = &method.params[i];
            props.push(Property { name: p.ident.clone(), schema: method_param_schema_expr(p) });
            i = i + 1;
        }
        proof {
            assert(props.deep_view() =~= mapped);
        }
        Some(RequestBodySchema::Object(props))
    };
    let response = match &method.output {
        Some(output) => Some(method_output_schema_expr(output)),
        None => None,
    };
    Operation { operation_id: method.ident.clone(), description, request_body, response }
}

/// Builds the description of the generated document type.
pub fn gen_doc(ir: &Ir) -> (r: OpenApiDoc)
    ensures
        r@ == spec_gen_doc(ir@),
{
    let ghost mv = ir@.methods;
    let ghost mapped = mv.map_values(
        |m: MethodView| DocPathView { name: m.ident, operation: spec_operation(m) },
    );
    let mut paths: Vec<DocPath> = Vec::new();
    let mut i: usize = 0;
    while i < ir.methods.len()
        invariant
            0 <= i <= ir.methods.len(),
            mv == ir@.methods,
            mv.len() == ir.methods@.len(),
            mapped == mv.map_values(
                |m: MethodView| DocPathView { name: m.ident, operation: spec_operation(m) },
            ),
            paths@.len() == i,
            forall|j: int| 0 <= j < i ==> paths@[j]@ == mapped[j],
        decreases ir.methods.len() - i,
    {
        proof {
            assert(mv[i as int] == ir.methods@[i as int]@);
        }
        let method = &ir.methods[i];
        paths.push(DocPath { name: method.ident.clone(), operation: gen_operation(method) });
        i = i + 1;
    }
    proof {
        assert(paths.deep_view() =~= mapped);
    }
    OpenApiDoc {
        struct_ident: append_doc_suffix(&ir.item_trait.ident),
        paths,
        components: duplicate_strings(&ir.ref_schema_tys),
    }
}

/// Builds the whole emitted artifact's description: the stripped interface
/// definition passed through unchanged, and the document type beside it.
pub fn codegen(ir: Ir) -> (r: Rust)
    ensures
        r@ == spec_codegen(ir@),
{
    let doc = gen_doc(&ir);
    let Ir { ref_schema_tys: _, methods: _, item_trait } = ir;
    Rust { item_trait, doc }
}

} // verus!
