//! The general laws of the pipeline, stated and proved over the functional
//! model that the executable functions are verified against.

use vstd::prelude::*;

use crate::analyze::{
    spec_analyze_fn, spec_analyze_fn_attrs, spec_analyze_items, spec_analyze_param,
    spec_analyze_param_attrs, spec_doc_lines, spec_parse_source_item, MethodErrorView, MethodView,
    ParamErrorView, SchemaSourceView,
};
use crate::ast::{AttrDefView, FnDefView, MetaInnerView, ParamDefView, PatDefView,
    TraitItemDefView};
use crate::codegen::{
    spec_gen_doc, spec_operation, spec_param_schema, spec_request_body, RequestBodySchemaView,
};
use crate::diag::{GrammarErrorKindView, GrammarErrorView};
use crate::lower::IrView;
use crate::text::spec_join_lines;

verus! {

/// A method with zero declared parameters generates an operation without a
/// request body.
pub proof fn lemma_no_params_no_request_body(m: MethodView)
    requires
        m.params.len() == 0,
    ensures
        spec_operation(m).request_body is None,
{
}

/// A method with exactly one parameter generates a request body that is
/// that parameter's resolved schema directly, not object-wrapped.
pub proof fn lemma_single_param_direct_body(m: MethodView)
    requires
        m.params.len() == 1,
    ensures
        spec_operation(m).request_body == Option::Some(
            RequestBodySchemaView::Direct(spec_param_schema(m.params[0])),
        ),
{
}

/// A method with two or more parameters generates a request body that is
/// an object whose property names are the parameter names, in declaration
/// order, each mapped to that parameter's resolved schema.
pub proof fn lemma_multi_param_object_body(m: MethodView)
    requires
        m.params.len() >= 2,
    ensures
        spec_operation(m).request_body matches Option::Some(RequestBodySchemaView::Object(props))
            && props.len() == m.params.len() && (forall|i: int|
            0 <= i < m.params.len() ==> (#[trigger] props[i]).name == m.params[i].ident
                && props[i].schema == spec_param_schema(m.params[i])),
{
    let props = m.params.map_values(
        |p: crate::analyze::MethodParamView| crate::codegen::PropertyView {
            name: p.ident,
            schema: spec_param_schema(p),
        },
    );
    assert(spec_request_body(m.params) == Option::Some(RequestBodySchemaView::Object(props)));
}

/// A method with no declared return type generates an operation without a
/// response entry.
pub proof fn lemma_no_output_no_response(m: MethodView)
    requires
        m.output is None,
    ensures
        spec_operation(m).response is None,
{
}

/// A successfully analyzed method's operation identifier equals its
/// declared textual identifier, whatever other attributes — a wire-level
/// rename among them — the declaration carries.
pub proof fn lemma_operation_id_is_declared_ident(f: FnDefView, m: MethodView)
    requires
        spec_analyze_fn(f) == Ok::<MethodView, Seq<MethodErrorView>>(m),
    ensures
        spec_operation(m).operation_id == f.ident,
{
}

/// A successfully analyzed method's description is its trimmed doc-comment
/// lines joined with newlines, in declaration order; with zero doc
/// comments there is no description.
pub proof fn lemma_description_from_doc_comments(f: FnDefView, m: MethodView)
    requires
        spec_analyze_fn(f) == Ok::<MethodView, Seq<MethodErrorView>>(m),
    ensures
        spec_doc_lines(f.attrs).len() == 0 ==> m.description is None,
        spec_doc_lines(f.attrs).len() > 0 ==> m.description == Option::Some(
            spec_join_lines(spec_doc_lines(f.attrs)),
        ),
{
}

/// The generated components are exactly the registered reference-schema
/// types, in the order listed.
pub proof fn lemma_components_in_declared_order(ir: IrView)
    ensures
        spec_gen_doc(ir).components == ir.ref_schema_tys,
{
}

/// Each method occupies exactly one path, keyed by its textual name and
/// carrying its operation, in declaration order.
pub proof fn lemma_one_path_per_method(ir: IrView)
    ensures
        spec_gen_doc(ir).paths.len() == ir.methods.len(),
        forall|i: int|
            0 <= i < ir.methods.len() ==> (#[trigger] spec_gen_doc(ir).paths[i]).name
                == ir.methods[i].ident && spec_gen_doc(ir).paths[i].operation == spec_operation(
                ir.methods[i],
            ),
{
}

/// A second-level key other than the two recognized capabilities is a
/// grammar diagnostic citing that key, at that key's span.
pub proof fn lemma_unknown_schema_key_cited(item: MetaInnerView)
    requires
        item.key != "PartialSchema"@,
        item.key != "ToSchema"@,
    ensures
        spec_parse_source_item(item) == Err::<SchemaSourceView, GrammarErrorView>(
            GrammarErrorView {
                span: item.span,
                kind: GrammarErrorKindView::UnexpectedValue(item.key),
            },
        ),
{
}

/// A parameter whose attributes produced any diagnostic contributes no
/// model entry: defaults apply only absent any directive, never on a
/// malformed one.
pub proof fn lemma_param_attr_error_no_entry(p: ParamDefView)
    requires
        spec_analyze_param_attrs(p.attrs).0.len() > 0,
    ensures
        spec_analyze_param(p) is Err,
{
}

/// A parameter whose binding is not a simple name is diagnosed with the
/// offending pattern itself, whose textual form the diagnostic carries.
pub proof fn lemma_non_ident_pattern_diagnosed(p: ParamDefView)
    requires
        !(p.pat is Ident),
    ensures
        spec_analyze_param(p) matches Err(es) && es.len() > 0 && es.last()
            == ParamErrorView::ExpectedPatIdent(p.pat),
{
}

/// The analysis of a sequence of interface items is compositional: the
/// diagnostics and the methods of a concatenation are the concatenations,
/// in order. A failing method thus never suppresses another method's
/// diagnostics or entry.
pub proof fn lemma_items_analysis_compositional(s1: Seq<TraitItemDefView>, s2: Seq<
    TraitItemDefView,
>)
    ensures
        spec_analyze_items(s1 + s2).0 == spec_analyze_items(s1).0 + spec_analyze_items(s2).0,
        spec_analyze_items(s1 + s2).1 == spec_analyze_items(s1).1 + spec_analyze_items(s2).1,
    decreases s2.len(),
{
    if s2.len() == 0 {
        assert(s1 + s2 =~= s1);
        assert(spec_analyze_items(s2).0 =~= Seq::<Seq<MethodErrorView>>::empty());
        assert(spec_analyze_items(s2).1 =~= Seq::<MethodView>::empty());
        assert(spec_analyze_items(s1).0 + spec_analyze_items(s2).0 =~= spec_analyze_items(s1).0);
        assert(spec_analyze_items(s1).1 + spec_analyze_items(s2).1 =~= spec_analyze_items(s1).1);
    } else {
        let s2x = s2.drop_last();
        lemma_items_analysis_compositional(s1, s2x);
        assert((s1 + s2).drop_last() =~= s1 + s2x);
        assert((s1 + s2).last() == s2.last());
        let (e1, m1) = spec_analyze_items(s1);
        let (e12, m12) = spec_analyze_items(s1 + s2x);
        let (e2, m2) = spec_analyze_items(s2x);
        match s2.last() {
            TraitItemDefView::Func(f) => match spec_analyze_fn(f) {
                Ok(m) => {
                    assert(m12.push(m) =~= m1 + m2.push(m));
                },
                Err(es) => {
                    assert(e12.push(es) =~= e1 + e2.push(es));
                },
            },
            TraitItemDefView::Other => {},
        }
    }
}

proof fn lemma_param_acc_persists(attrs: Seq<AttrDefView>, n: int, m: int)
    requires
        0 <= n <= m <= attrs.len(),
        spec_analyze_param_attrs(attrs.take(n)).1 is Some,
    ensures
        spec_analyze_param_attrs(attrs.take(m)).1 is Some,
    decreases m - n,
{
    if n < m {
        lemma_param_acc_persists(attrs, n, m - 1);
        assert(attrs.take(m).drop_last() =~= attrs.take(m - 1));
        assert(attrs.take(m).last() == attrs[m - 1]);
    }
}

proof fn lemma_param_errs_persist(attrs: Seq<AttrDefView>, n: int, m: int, e: ParamErrorView)
    requires
        0 <= n <= m <= attrs.len(),
        spec_analyze_param_attrs(attrs.take(n)).0.contains(e),
    ensures
        spec_analyze_param_attrs(attrs.take(m)).0.contains(e),
    decreases m - n,
{
    if n < m {
        lemma_param_errs_persist(attrs, n, m - 1, e);
        assert(attrs.take(m).drop_last() =~= attrs.take(m - 1));
        assert(attrs.take(m).last() == attrs[m - 1]);
        let prev = spec_analyze_param_attrs(attrs.take(m - 1)).0;
        let cur = spec_analyze_param_attrs(attrs.take(m)).0;
        let k = choose|k: int| 0 <= k < prev.len() && prev[k] == e;
        assert(cur == prev || cur == prev.push(spec_analyze_param_attrs(attrs.take(m)).0.last()));
        assert(cur[k] == e);
    }
}

/// A parameter carrying two occurrences of the marker attribute, both
/// well-formed, is diagnosed as a duplicate at the second occurrence's
/// span, and the second occurrence registers nothing: the extracted
/// directive is unchanged by it.
pub proof fn lemma_duplicate_param_attr_diagnosed(attrs: Seq<AttrDefView>, i: int, j: int)
    requires
        0 <= i < j < attrs.len(),
        attrs[i].name == "open_api_method_arg"@,
        attrs[j].name == "open_api_method_arg"@,
        crate::analyze::spec_parse_directive_attr(
            attrs[i].value,
            "schema"@,
            "open_api_method_arg"@,
            attrs[i].span,
        ) is Ok,
        crate::analyze::spec_parse_directive_attr(
            attrs[j].value,
            "schema"@,
            "open_api_method_arg"@,
            attrs[j].span,
        ) is Ok,
    ensures
        spec_analyze_param_attrs(attrs).0.contains(ParamErrorView::DuplicateAttr(attrs[j].span)),
        spec_analyze_param_attrs(attrs.take(j + 1)).1 == spec_analyze_param_attrs(attrs.take(j)).1,
{
    assert(attrs.take(i + 1).drop_last() =~= attrs.take(i));
    assert(attrs.take(i + 1).last() == attrs[i]);
    assert(spec_analyze_param_attrs(attrs.take(i + 1)).1 is Some);
    lemma_param_acc_persists(attrs, i + 1, j);
    assert(attrs.take(j + 1).drop_last() =~= attrs.take(j));
    assert(attrs.take(j + 1).last() == attrs[j]);
    let errs_j = spec_analyze_param_attrs(attrs.take(j)).0;
    let dup = ParamErrorView::DuplicateAttr(attrs[j].span);
    assert(spec_analyze_param_attrs(attrs.take(j + 1)).0 == errs_j.push(dup));
    assert(errs_j.push(dup)[errs_j.len() as int] == dup);
    assert(spec_analyze_param_attrs(attrs.take(j + 1)).0.contains(dup));
    lemma_param_errs_persist(attrs, j + 1, attrs.len() as int, dup);
    assert(attrs.take(attrs.len() as int) =~= attrs);
}

proof fn lemma_fn_acc_persists(attrs: Seq<AttrDefView>, n: int, m: int)
    requires
        0 <= n <= m <= attrs.len(),
        spec_analyze_fn_attrs(attrs.take(n)).1 is Some,
    ensures
        spec_analyze_fn_attrs(attrs.take(m)).1 is Some,
    decreases m - n,
{
    if n < m {
        lemma_fn_acc_persists(attrs, n, m - 1);
        assert(attrs.take(m).drop_last() =~= attrs.take(m - 1));
        assert(attrs.take(m).last() == attrs[m - 1]);
    }
}

proof fn lemma_fn_errs_persist(attrs: Seq<AttrDefView>, n: int, m: int, e: MethodErrorView)
    requires
        0 <= n <= m <= attrs.len(),
        spec_analyze_fn_attrs(attrs.take(n)).0.contains(e),
    ensures
        spec_analyze_fn_attrs(attrs.take(m)).0.contains(e),
    decreases m - n,
{
    if n < m {
        lemma_fn_errs_persist(attrs, n, m - 1, e);
        assert(attrs.take(m).drop_last() =~= attrs.take(m - 1));
        assert(attrs.take(m).last() == attrs[m - 1]);
        let prev = spec_analyze_fn_attrs(attrs.take(m - 1)).0;
        let cur = spec_analyze_fn_attrs(attrs.take(m)).0;
        let k = choose|k: int| 0 <= k < prev.len() && prev[k] == e;
        assert(cur == prev || cur == prev.push(spec_analyze_fn_attrs(attrs.take(m)).0.last()));
        assert(cur[k] == e);
    }
}

/// A method carrying two occurrences of the marker attribute, both
/// well-formed, is diagnosed as a duplicate at the second occurrence's
/// span, and the second occurrence registers nothing.
pub proof fn lemma_duplicate_method_attr_diagnosed(attrs: Seq<AttrDefView>, i: int, j: int)
    requires
        0 <= i < j < attrs.len(),
        attrs[i].name == "open_api_method"@,
        attrs[j].name == "open_api_method"@,
        crate::analyze::spec_parse_directive_attr(
            attrs[i].value,
            "output_schema"@,
            "open_api_method"@,
            attrs[i].span,
        ) is Ok,
        crate::analyze::spec_parse_directive_attr(
            attrs[j].value,
            "output_schema"@,
            "open_api_method"@,
            attrs[j].span,
        ) is Ok,
    ensures
        spec_analyze_fn_attrs(attrs).0.contains(MethodErrorView::DuplicateAttr(attrs[j].span)),
        spec_analyze_fn_attrs(attrs.take(j + 1)).1 == spec_analyze_fn_attrs(attrs.take(j)).1,
{
    assert(attrs.take(i + 1).drop_last() =~= attrs.take(i));
    assert(attrs.take(i + 1).last() == attrs[i]);
    assert(spec_analyze_fn_attrs(attrs.take(i + 1)).1 is Some);
    lemma_fn_acc_persists(attrs, i + 1, j);
    assert(attrs.take(j + 1).drop_last() =~= attrs.take(j));
    assert(attrs.take(j + 1).last() == attrs[j]);
    let errs_j = spec_analyze_fn_attrs(attrs.take(j)).0;
    let dup = MethodErrorView::DuplicateAttr(attrs[j].span);
    assert(spec_analyze_fn_attrs(attrs.take(j + 1)).0 == errs_j.push(dup));
    assert(errs_j.push(dup)[errs_j.len() as int] == dup);
    assert(spec_analyze_fn_attrs(attrs.take(j + 1)).0.contains(dup));
    lemma_fn_errs_persist(attrs, j + 1, attrs.len() as int, dup);
    assert(attrs.take(attrs.len() as int) =~= attrs);
}

} // verus!
