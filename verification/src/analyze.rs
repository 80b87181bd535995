//! Analysis of the parsed interface: directive extraction, grammar
//! validation, and construction of the structured model of methods.
//!
//! The per-parameter directive grammar is
//! `schema(PartialSchema | PartialSchema = "Type" | ToSchema | ToSchema = "Type")`
//! inside the parameter-scoped marker attribute, and the per-method grammar
//! is the same under the key `output_schema` inside the method-scoped marker
//! attribute. Every diagnostic is accumulated per element, per method, and
//! globally: the analysis visits the whole interface and fails only at the
//! end, so a user sees every mistake in one pass.

use vstd::prelude::*;

use crate::ast::{
    AttrDef, AttrDefView, AttrValue, AttrValueView, FnArg, FnArgView, FnDef, FnDefView, MetaArg,
    MetaArgView, MetaInner, MetaInnerView, MetaItem, MetaItemView, MetaLeaf, MetaLeafView,
    ParamDef, ParamDefView, PatDef, PatDefView, TraitDef, TraitDefView, TraitItemDef,
    TraitItemDefView,
};
use crate::diag::{GrammarError, GrammarErrorKind, GrammarErrorKindView, GrammarErrorView};
use crate::text::string_eq;

verus! {

/// Which schema-derivation capability to invoke for a type, optionally on an
/// override type instead of the declared one.
pub enum SchemaSource {
    /// The lightweight capability: a schema without an identity.
    Partial(Option<String>),
    /// The richer capability: a named schema, of which only the schema
    /// component is used inline.
    ToSchema(Option<String>),
}

pub enum SchemaSourceView {
    Partial(Option<Seq<char>>),
    ToSchema(Option<Seq<char>>),
}

impl View for SchemaSource {
    type V = SchemaSourceView;

    open spec fn view(&self) -> SchemaSourceView {
        match self {
            SchemaSource::Partial(ty) => SchemaSourceView::Partial(ty.deep_view()),
            SchemaSource::ToSchema(ty) => SchemaSourceView::ToSchema(ty.deep_view()),
        }
    }
}

impl DeepView for SchemaSource {
    type V = SchemaSourceView;

    open spec fn deep_view(&self) -> SchemaSourceView {
        self.view()
    }
}

/// The source used when no directive names one.
pub open spec fn spec_default_source() -> SchemaSourceView {
    SchemaSourceView::Partial(Option::<Seq<char>>::None)
}

impl Default for SchemaSource {
    /// The lightweight capability on the declared type.
    fn default() -> (r: Self)
        ensures
            r@ == spec_default_source(),
    {
        SchemaSource::Partial(None)
    }
}

/// Result of parsing one `PartialSchema`/`ToSchema` entry.
pub open spec fn spec_parse_source_item(item: MetaInnerView) -> Result<
    SchemaSourceView,
    GrammarErrorView,
> {
    if item.key == "PartialSchema"@ {
        match item.value {
            MetaLeafView::Empty => Ok(SchemaSourceView::Partial(Option::<Seq<char>>::None)),
            MetaLeafView::Str(s) => Ok(SchemaSourceView::Partial(Option::Some(s))),
            MetaLeafView::Other => Err(
                GrammarErrorView {
                    span: item.span,
                    kind: GrammarErrorKindView::ExpectedStrValue(item.key),
                },
            ),
        }
    } else if item.key == "ToSchema"@ {
        match item.value {
            MetaLeafView::Empty => Ok(SchemaSourceView::ToSchema(Option::<Seq<char>>::None)),
            MetaLeafView::Str(s) => Ok(SchemaSourceView::ToSchema(Option::Some(s))),
            MetaLeafView::Other => Err(
                GrammarErrorView {
                    span: item.span,
                    kind: GrammarErrorKindView::ExpectedStrValue(item.key),
                },
            ),
        }
    } else {
        Err(
            GrammarErrorView {
                span: item.span,
                kind: GrammarErrorKindView::UnexpectedValue(item.key),
            },
        )
    }
}

/// Result of parsing the entries inside `schema(...)`/`output_schema(...)`,
/// left to right, the first diagnostic winning; a later entry overrides an
/// earlier one, and zero entries leave the source unset.
pub open spec fn spec_parse_source_list(items: Seq<MetaInnerView>) -> Result<
    Option<SchemaSourceView>,
    GrammarErrorView,
>
    decreases items.len(),
{
    if items.len() == 0 {
        Ok(Option::<SchemaSourceView>::None)
    } else {
        match spec_parse_source_list(items.drop_last()) {
            Ok(_) => match spec_parse_source_item(items.last()) {
                Ok(src) => Ok(Option::Some(src)),
                Err(e) => Err(e),
            },
            Err(e) => Err(e),
        }
    }
}

/// One step over a first-level entry of a directive attribute: the entry's
/// key must be the directive key, at most once, with parenthesized
/// arguments.
pub open spec fn spec_parse_directive_item(
    item: MetaItemView,
    key: Seq<char>,
    acc: Option<SchemaSourceView>,
) -> Result<Option<SchemaSourceView>, GrammarErrorView> {
    if item.key == key {
        if acc is Some {
            Err(GrammarErrorView { span: item.span, kind: GrammarErrorKindView::DuplicateKey(key) })
        } else {
            match item.value {
                MetaArgView::List(inner) => spec_parse_source_list(inner),
                _ => Err(
                    GrammarErrorView {
                        span: item.span,
                        kind: GrammarErrorKindView::ExpectedArgList(key),
                    },
                ),
            }
        }
    } else {
        Err(GrammarErrorView { span: item.span, kind: GrammarErrorKindView::UnexpectedKey(item.key) })
    }
}

/// Result of parsing a directive attribute's first-level entries, left to
/// right, the first diagnostic winning.
pub open spec fn spec_parse_directive_items(items: Seq<MetaItemView>, key: Seq<char>) -> Result<
    Option<SchemaSourceView>,
    GrammarErrorView,
>
    decreases items.len(),
{
    if items.len() == 0 {
        Ok(Option::<SchemaSourceView>::None)
    } else {
        match spec_parse_directive_items(items.drop_last(), key) {
            Ok(acc) => spec_parse_directive_item(items.last(), key, acc),
            Err(e) => Err(e),
        }
    }
}

/// Result of parsing a whole directive attribute's argument shape: the
/// attribute must carry parenthesized arguments.
pub open spec fn spec_parse_directive_attr(
    value: AttrValueView,
    key: Seq<char>,
    marker: Seq<char>,
    attr_span: usize,
) -> Result<Option<SchemaSourceView>, GrammarErrorView> {
    match value {
        AttrValueView::List(items) => spec_parse_directive_items(items, key),
        _ => Err(
            GrammarErrorView { span: attr_span, kind: GrammarErrorKindView::ExpectedArgList(marker) },
        ),
    }
}

proof fn lemma_source_list_err(items: Seq<MetaInnerView>, n: int, e: GrammarErrorView)
    requires
        0 <= n <= items.len(),
        spec_parse_source_list(items.take(n)) == Err::<Option<SchemaSourceView>, GrammarErrorView>(
            e,
        ),
    ensures
        spec_parse_source_list(items) == Err::<Option<SchemaSourceView>, GrammarErrorView>(e),
    decreases items.len() - n,
{
    if n == items.len() {
        assert(items.take(n) =~= items);
    } else {
        assert(items.take(n + 1).drop_last() =~= items.take(n));
        lemma_source_list_err(items, n + 1, e);
    }
}

proof fn lemma_directive_items_err(items: Seq<MetaItemView>, key: Seq<char>, n: int, e: GrammarErrorView)
    requires
        0 <= n <= items.len(),
        spec_parse_directive_items(items.take(n), key) == Err::<
            Option<SchemaSourceView>,
            GrammarErrorView,
        >(e),
    ensures
        spec_parse_directive_items(items, key) == Err::<Option<SchemaSourceView>, GrammarErrorView>(
            e,
        ),
    decreases items.len() - n,
{
    if n == items.len() {
        assert(items.take(n) =~= items);
    } else {
        assert(items.take(n + 1).drop_last() =~= items.take(n));
        lemma_directive_items_err(items, key, n + 1, e);
    }
}

fn parse_source_item(item: &MetaInner) -> (r: Result<SchemaSource, GrammarError>)
    ensures
        match r {
            Ok(src) => spec_parse_source_item(item@) == Ok::<SchemaSourceView, GrammarErrorView>(
                src@,
            ),
            Err(e) => spec_parse_source_item(item@) == Err::<SchemaSourceView, GrammarErrorView>(
                e@,
            ),
        },
{
    if string_eq(&item.key, "PartialSchema") {
        match &item.value {
            MetaLeaf::Empty => Ok(SchemaSource::Partial(None)),
            MetaLeaf::Str(s) => Ok(SchemaSource::Partial(Some(s.clone()))),
            MetaLeaf::Other => Err(
                GrammarError {
                    span: item.span,
                    kind: GrammarErrorKind::ExpectedStrValue(item.key.clone()),
                },
            ),
        }
    } else if string_eq(&item.key, "ToSchema") {
        match &item.value {
            MetaLeaf::Empty => Ok(SchemaSource::ToSchema(None)),
            MetaLeaf::Str(s) => Ok(SchemaSource::ToSchema(Some(s.clone()))),
            MetaLeaf::Other => Err(
                GrammarError {
                    span: item.span,
                    kind: GrammarErrorKind::ExpectedStrValue(item.key.clone()),
                },
            ),
        }
    } else {
        Err(
            GrammarError {
                span: item.span,
                kind: GrammarErrorKind::UnexpectedValue(item.key.clone()),
            },
        )
    }
}

fn parse_source_list(items: &Vec<MetaInner>) -> (r: Result<Option<SchemaSource>, GrammarError>)
    ensures
        match r {
            Ok(src) => spec_parse_source_list(items.deep_view()) == Ok::<
                Option<SchemaSourceView>,
                GrammarErrorView,
            >(src.deep_view()),
            Err(e) => spec_parse_source_list(items.deep_view()) == Err::<
                Option<SchemaSourceView>,
                GrammarErrorView,
            >(e@),
        },
{
    let ghost iv = items.deep_view();
    let mut acc: Option<SchemaSource> = None;
    let mut i: usize = 0;
    proof {
        assert(iv.take(0) =~= Seq::<MetaInnerView>::empty());
    }
    while i < items.len()
        invariant
            0 <= i <= items.len(),
            iv == items.deep_view(),
            iv.len() == items@.len(),
            spec_parse_source_list(iv.take(i as int)) == Ok::<
                Option<SchemaSourceView>,
                GrammarErrorView,
            >(acc.deep_view()),
        decreases items.len() - i,
    {
        proof {
            assert(iv.take(i + 1).drop_last() =~= iv.take(i as int));
            assert(iv.take(i + 1).last() == iv[i as int]);
            assert(iv[i as int] == items@[i as int]@);
        }
        match parse_source_item(&items[i]) {
            Ok(src) => {
                acc = Some(src);
            },
            Err(e) => {
                proof {
                    lemma_source_list_err(iv, i + 1, e@);
                }
                return Err(e);
            },
        }
        i = i + 1;
    }
    proof {
        assert(iv.take(items@.len() as int) =~= iv);
    }
    Ok(acc)
}

fn parse_directive_items(items: &Vec<MetaItem>, key: &str) -> (r: Result<
    Option<SchemaSource>,
    GrammarError,
>)
    ensures
        match r {
            Ok(src) => spec_parse_directive_items(items.deep_view(), key@) == Ok::<
                Option<SchemaSourceView>,
                GrammarErrorView,
            >(src.deep_view()),
            Err(e) => spec_parse_directive_items(items.deep_view(), key@) == Err::<
                Option<SchemaSourceView>,
                GrammarErrorView,
            >(e@),
        },
{
    let ghost iv = items.deep_view();
    let mut acc: Option<SchemaSource> = None;
    let mut i: usize = 0;
    proof {
        assert(iv.take(0) =~= Seq::<MetaItemView>::empty());
    }
    while i < items.len()
        invariant
            0 <= i <= items.len(),
            iv == items.deep_view(),
            iv.len() == items@.len(),
            spec_parse_directive_items(iv.take(i as int), key@) == Ok::<
                Option<SchemaSourceView>,
                GrammarErrorView,
            >(acc.deep_view()),
        decreases items.len() - i,
    {
        proof {
            assert(iv.take(i + 1).drop_last() =~= iv.take(i as int));
            assert(iv.take(i + 1).last() == iv[i as int]);
            assert(iv[i as int] == items@[i as int]@);
        }
        let item = &items[i];
        if string_eq(&item.key, key) {
            if acc.is_some() {
                let e = GrammarError {
                    span: item.span,
                    kind: GrammarErrorKind::DuplicateKey(key.to_owned()),
                };
                proof {
                    lemma_directive_items_err(iv, key@, i + 1, e@);
                }
                return Err(e);
            }
            match &item.value {
                MetaArg::List(inner) => {
                    match parse_source_list(inner) {
                        Ok(src) => {
                            acc = src;
                        },
                        Err(e) => {
                            proof {
                                lemma_directive_items_err(iv, key@, i + 1, e@);
                            }
                            return Err(e);
                        },
                    }
                },
                _ => {
                    let e = GrammarError {
                        span: item.span,
                        kind: GrammarErrorKind::ExpectedArgList(key.to_owned()),
                    };
                    proof {
                        lemma_directive_items_err(iv, key@, i + 1, e@);
                    }
                    return Err(e);
                },
            }
        } else {
            let e = GrammarError {
                span: item.span,
                kind: GrammarErrorKind::UnexpectedKey(item.key.clone()),
            };
            proof {
                lemma_directive_items_err(iv, key@, i + 1, e@);
            }
            return Err(e);
        }
        i = i + 1;
    }
    proof {
        assert(iv.take(items@.len() as int) =~= iv);
    }
    Ok(acc)
}

/// Extracted per-parameter directive: the named source, if any, and the
/// attribute's span.
pub struct MethodParamAttr {
    pub schema_source: Option<SchemaSource>,
    pub span: Option<usize>,
}

pub struct MethodParamAttrView {
    pub schema_source: Option<SchemaSourceView>,
    pub span: Option<usize>,
}

impl View for MethodParamAttr {
    type V = MethodParamAttrView;

    open spec fn view(&self) -> MethodParamAttrView {
        MethodParamAttrView { schema_source: self.schema_source.deep_view(), span: self.span }
    }
}

impl DeepView for MethodParamAttr {
    type V = MethodParamAttrView;

    open spec fn deep_view(&self) -> MethodParamAttrView {
        self.view()
    }
}

/// Diagnostic from parsing the per-parameter directive attribute.
pub struct MethodParamAttrParseError(pub GrammarError);

impl View for MethodParamAttrParseError {
    type V = GrammarErrorView;

    open spec fn view(&self) -> GrammarErrorView {
        self.0@
    }
}

impl DeepView for MethodParamAttrParseError {
    type V = GrammarErrorView;

    open spec fn deep_view(&self) -> GrammarErrorView {
        self.view()
    }
}

/// Scans one attribute of a parameter: not the marker attribute at all, or
/// the extracted directive, or a located diagnostic.
pub fn parse_method_param_attr(attr: &AttrDef) -> (r: Option<
    Result<MethodParamAttr, MethodParamAttrParseError>,
>)
    ensures
        match r {
            None => attr@.name != "open_api_method_arg"@,
            Some(res) => attr@.name == "open_api_method_arg"@ && match res {
                Ok(a) => spec_parse_directive_attr(
                    attr@.value,
                    "schema"@,
                    "open_api_method_arg"@,
                    attr@.span,
                ) == Ok::<Option<SchemaSourceView>, GrammarErrorView>(a@.schema_source) && a@.span
                    == Option::Some(attr@.span),
                Err(e) => spec_parse_directive_attr(
                    attr@.value,
                    "schema"@,
                    "open_api_method_arg"@,
                    attr@.span,
                ) == Err::<Option<SchemaSourceView>, GrammarErrorView>(e@),
            },
        },
{
    if !string_eq(&attr.name, "open_api_method_arg") {
        return None;
    }
    match &attr.value {
        AttrValue::List(items) => match parse_directive_items(items, "schema") {
            Ok(src) => Some(
                Ok(MethodParamAttr { schema_source: src, span: Some(attr.span) }),
            ),
            Err(e) => Some(Err(MethodParamAttrParseError(e))),
        },
        _ => Some(
            Err(
                MethodParamAttrParseError(
                    GrammarError {
                        span: attr.span,
                        kind: GrammarErrorKind::ExpectedArgList("open_api_method_arg".to_owned()),
                    },
                ),
            ),
        ),
    }
}

/// One parameter of the structured model: its name, its declared type, and
/// the resolved schema source.
pub struct MethodParam {
    pub ident: String,
    pub ty: String,
    pub schema_source: SchemaSource,
}

pub struct MethodParamView {
    pub ident: Seq<char>,
    pub ty: Seq<char>,
    pub schema_source: SchemaSourceView,
}

impl View for MethodParam {
    type V = MethodParamView;

    open spec fn view(&self) -> MethodParamView {
        MethodParamView { ident: self.ident@, ty: self.ty@, schema_source: self.schema_source@ }
    }
}

impl DeepView for MethodParam {
    type V = MethodParamView;

    open spec fn deep_view(&self) -> MethodParamView {
        self.view()
    }
}

/// Diagnostic of one parameter.
pub enum ParamError {
    /// The directive attribute did not parse.
    AttrParseError(MethodParamAttrParseError),
    /// The marker attribute occurred more than once; carries the second
    /// occurrence's span.
    DuplicateAttr(usize),
    /// The binding pattern is not a simple name; carries the pattern.
    ExpectedPatIdent(PatDef),
}

pub enum ParamErrorView {
    AttrParseError(GrammarErrorView),
    DuplicateAttr(usize),
    ExpectedPatIdent(PatDefView),
}

impl View for ParamError {
    type V = ParamErrorView;

    open spec fn view(&self) -> ParamErrorView {
        match self {
            ParamError::AttrParseError(e) => ParamErrorView::AttrParseError(e@),
            ParamError::DuplicateAttr(span) => ParamErrorView::DuplicateAttr(*span),
            ParamError::ExpectedPatIdent(pat) => ParamErrorView::ExpectedPatIdent(pat@),
        }
    }
}

impl DeepView for ParamError {
    type V = ParamErrorView;

    open spec fn deep_view(&self) -> ParamErrorView {
        self.view()
    }
}

/// Every diagnostic of one parameter.
pub struct ParamErrors(pub Vec<ParamError>);

impl View for ParamErrors {
    type V = Seq<ParamErrorView>;

    open spec fn view(&self) -> Seq<ParamErrorView> {
        self.0.deep_view()
    }
}

/// One step of the scan over a parameter's attributes: a non-marker
/// attribute is left alone; a second extracted directive is a duplicate; a
/// grammar diagnostic is recorded.
pub open spec fn spec_param_attr_step(
    attr: AttrDefView,
    errs: Seq<ParamErrorView>,
    acc: Option<MethodParamAttrView>,
) -> (Seq<ParamErrorView>, Option<MethodParamAttrView>) {
    if attr.name != "open_api_method_arg"@ {
        (errs, acc)
    } else {
        match spec_parse_directive_attr(attr.value, "schema"@, "open_api_method_arg"@, attr.span) {
            Ok(src) => {
                if acc is Some {
                    (errs.push(ParamErrorView::DuplicateAttr(attr.span)), acc)
                } else {
                    (
                        errs,
                        Option::Some(
                            MethodParamAttrView {
                                schema_source: src,
                                span: Option::Some(attr.span),
                            },
                        ),
                    )
                }
            },
            Err(e) => (errs.push(ParamErrorView::AttrParseError(e)), acc),
        }
    }
}

/// The diagnostics and the extracted directive of a parameter's attribute
/// list, scanned left to right.
pub open spec fn spec_analyze_param_attrs(attrs: Seq<AttrDefView>) -> (
    Seq<ParamErrorView>,
    Option<MethodParamAttrView>,
)
    decreases attrs.len(),
{
    if attrs.len() == 0 {
        (Seq::<ParamErrorView>::empty(), Option::<MethodParamAttrView>::None)
    } else {
        let (errs, acc) = spec_analyze_param_attrs(attrs.drop_last());
        spec_param_attr_step(attrs.last(), errs, acc)
    }
}

/// Scans a parameter's attributes, appending each diagnostic, and returns
/// the extracted directive, or the empty one when no marker attribute was
/// present.
pub fn analyze_param_attrs(errs: &mut Vec<ParamError>, param: &ParamDef) -> (r: MethodParamAttr)
    ensures
        final(errs).deep_view() == old(errs).deep_view() + spec_analyze_param_attrs(param@.attrs).0,
        ({
            let acc = spec_analyze_param_attrs(param@.attrs).1;
            r@ == match acc {
                Option::Some(a) => a,
                Option::None => MethodParamAttrView {
                    schema_source: Option::<SchemaSourceView>::None,
                    span: Option::<usize>::None,
                },
            }
        }),
{
    let ghost av = param@.attrs;
    let ghost errs0 = errs.deep_view();
    let mut acc: Option<MethodParamAttr> = None;
    let mut i: usize = 0;
    proof {
        assert(av.take(0) =~= Seq::<AttrDefView>::empty());
        assert(errs.deep_view() =~= errs0 + spec_analyze_param_attrs(av.take(0)).0);
    }
    while i < param.attrs.len()
        invariant
            0 <= i <= param.attrs.len(),
            av == param@.attrs,
            av.len() == param.attrs@.len(),
            errs.deep_view() == errs0 + spec_analyze_param_attrs(av.take(i as int)).0,
            acc.deep_view() == spec_analyze_param_attrs(av.take(i as int)).1,
        decreases param.attrs.len() - i,
    {
        proof {
            assert(av.take(i + 1).drop_last() =~= av.take(i as int));
            assert(av.take(i + 1).last() == av[i as int]);
            assert(av[i as int] == param.attrs@[i as int]@);
        }
        let ghost pre_errs = spec_analyze_param_attrs(av.take(i as int)).0;
        let ghost pre_acc = spec_analyze_param_attrs(av.take(i as int)).1;
        match parse_method_param_attr(&param.attrs[i]) {
            None => {},
            Some(Ok(a)) => {
                if acc.is_some() {
                    let ghost old_errs_vec = *errs;
                    let span = match &a.span {
                        Some(s) => *s,
                        None => 0,
                    };
                    let pushed = ParamError::DuplicateAttr(span);
                    let ghost pushed_snap = pushed;
                    errs.push(pushed);
                    proof {
                        crate::viewext::lemma_vec_deep_view_push(old_errs_vec, *errs, pushed_snap);
                        assert(errs.deep_view() =~= errs0 + pre_errs.push(
                            ParamErrorView::DuplicateAttr(span),
                        ));
                    }
                } else {
                    acc = Some(a);
                }
            },
            Some(Err(e)) => {
                let ghost old_errs_vec = *errs;
                let ghost ev = e@;
                let pushed = ParamError::AttrParseError(e);
                let ghost pushed_snap = pushed;
                errs.push(pushed);
                proof {
                    crate::viewext::lemma_vec_deep_view_push(old_errs_vec, *errs, pushed_snap);
                    assert(errs.deep_view() =~= errs0 + pre_errs.push(
                        ParamErrorView::AttrParseError(ev),
                    ));
                }
            },
        }
        i = i + 1;
    }
    proof {
        assert(av.take(param.attrs@.len() as int) =~= av);
    }
    match acc {
        Some(a) => a,
        None => MethodParamAttr { schema_source: None, span: None },
    }
}

impl ParamError {
    /// A copy with the same view.
    pub fn duplicate(&self) -> (r: ParamError)
        ensures
            r@ == self@,
    {
        match self {
            ParamError::AttrParseError(e) => ParamError::AttrParseError(
                MethodParamAttrParseError(e.0.duplicate()),
            ),
            ParamError::DuplicateAttr(span) => ParamError::DuplicateAttr(*span),
            ParamError::ExpectedPatIdent(pat) => ParamError::ExpectedPatIdent(pat.duplicate()),
        }
    }
}

/// The schema source a parameter resolves to: the directive's, or the
/// default when no directive named one.
pub open spec fn spec_unwrapped_param_source(acc: Option<MethodParamAttrView>) -> SchemaSourceView {
    match acc {
        Option::Some(a) => match a.schema_source {
            Option::Some(s) => s,
            Option::None => spec_default_source(),
        },
        Option::None => spec_default_source(),
    }
}

/// The analysis of one parameter: its model entry, or every diagnostic it
/// produced.
pub open spec fn spec_analyze_param(p: ParamDefView) -> Result<MethodParamView, Seq<ParamErrorView>> {
    let (errs, acc) = spec_analyze_param_attrs(p.attrs);
    match p.pat {
        PatDefView::Ident(name) => {
            if errs.len() == 0 {
                Ok(
                    MethodParamView {
                        ident: name,
                        ty: p.ty,
                        schema_source: spec_unwrapped_param_source(acc),
                    },
                )
            } else {
                Err(errs)
            }
        },
        PatDefView::Other { .. } => Err(errs.push(ParamErrorView::ExpectedPatIdent(p.pat))),
    }
}

/// Analyzes one parameter: extracts its directive, checks its binding is a
/// simple name, and resolves its schema source, defaulting when no
/// directive is present.
pub fn analyze_param(param: &ParamDef) -> (r: Result<MethodParam, ParamErrors>)
    ensures
        match r {
            Ok(mp) => spec_analyze_param(param@) == Ok::<MethodParamView, Seq<ParamErrorView>>(mp@),
            Err(es) => spec_analyze_param(param@) == Err::<MethodParamView, Seq<ParamErrorView>>(
                es@,
            ),
        },
{
    let mut errs: Vec<ParamError> = Vec::new();
    let attr = analyze_param_attrs(&mut errs, param);
    proof {
        assert(Seq::<ParamErrorView>::empty() + spec_analyze_param_attrs(param@.attrs).0
            =~= spec_analyze_param_attrs(param@.attrs).0);
    }
    match &param.pat {
        PatDef::Ident(name) => {
            if errs.len() == 0 {
                let source = match attr.schema_source {
                    Some(s) => s,
                    None => SchemaSource::default(),
                };
                Ok(
                    MethodParam {
                        ident: name.clone(),
                        ty: param.ty.clone(),
                        schema_source: source,
                    },
                )
            } else {
                Err(ParamErrors(errs))
            }
        },
        PatDef::Other { .. } => {
            let ghost old_errs_vec = errs;
            let pushed = ParamError::ExpectedPatIdent(param.pat.duplicate());
            let ghost pushed_snap = pushed;
            errs.push(pushed);
            proof {
                crate::viewext::lemma_vec_deep_view_push(old_errs_vec, errs, pushed_snap);
            }
            Err(ParamErrors(errs))
        },
    }
}

/// Extracted per-method directive: the named output source, if any, and the
/// attribute's span.
pub struct MethodAttr {
    pub schema_source: Option<SchemaSource>,
    pub span: Option<usize>,
}

pub struct MethodAttrView {
    pub schema_source: Option<SchemaSourceView>,
    pub span: Option<usize>,
}

impl View for MethodAttr {
    type V = MethodAttrView;

    open spec fn view(&self) -> MethodAttrView {
        MethodAttrView { schema_source: self.schema_source.deep_view(), span: self.span }
    }
}

impl DeepView for MethodAttr {
    type V = MethodAttrView;

    open spec fn deep_view(&self) -> MethodAttrView {
        self.view()
    }
}

/// Diagnostic from parsing the per-method directive attribute.
pub struct MethodAttrParseError(pub GrammarError);

impl View for MethodAttrParseError {
    type V = GrammarErrorView;

    open spec fn view(&self) -> GrammarErrorView {
        self.0@
    }
}

impl DeepView for MethodAttrParseError {
    type V = GrammarErrorView;

    open spec fn deep_view(&self) -> GrammarErrorView {
        self.view()
    }
}

/// Scans one attribute of a method: not the marker attribute at all, or the
/// extracted directive, or a located diagnostic.
pub fn parse_method_attr(attr: &AttrDef) -> (r: Option<Result<MethodAttr, MethodAttrParseError>>)
    ensures
        match r {
            None => attr@.name != "open_api_method"@,
            Some(res) => attr@.name == "open_api_method"@ && match res {
                Ok(a) => spec_parse_directive_attr(
                    attr@.value,
                    "output_schema"@,
                    "open_api_method"@,
                    attr@.span,
                ) == Ok::<Option<SchemaSourceView>, GrammarErrorView>(a@.schema_source) && a@.span
                    == Option::Some(attr@.span),
                Err(e) => spec_parse_directive_attr(
                    attr@.value,
                    "output_schema"@,
                    "open_api_method"@,
                    attr@.span,
                ) == Err::<Option<SchemaSourceView>, GrammarErrorView>(e@),
            },
        },
{
    if !string_eq(&attr.name, "open_api_method") {
        return None;
    }
    match &attr.value {
        AttrValue::List(items) => match parse_directive_items(items, "output_schema") {
            Ok(src) => Some(Ok(MethodAttr { schema_source: src, span: Some(attr.span) })),
            Err(e) => Some(Err(MethodAttrParseError(e))),
        },
        _ => Some(
            Err(
                MethodAttrParseError(
                    GrammarError {
                        span: attr.span,
                        kind: GrammarErrorKind::ExpectedArgList("open_api_method".to_owned()),
                    },
                ),
            ),
        ),
    }
}

/// Declared return type with its resolved schema source.
pub struct MethodOutput {
    pub ty: String,
    pub schema_source: SchemaSource,
}

pub struct MethodOutputView {
    pub ty: Seq<char>,
    pub schema_source: SchemaSourceView,
}

impl View for MethodOutput {
    type V = MethodOutputView;

    open spec fn view(&self) -> MethodOutputView {
        MethodOutputView { ty: self.ty@, schema_source: self.schema_source@ }
    }
}

impl DeepView for MethodOutput {
    type V = MethodOutputView;

    open spec fn deep_view(&self) -> MethodOutputView {
        self.view()
    }
}

/// One analyzed method of the structured model.
pub struct Method {
    pub ident: String,
    pub params: Vec<MethodParam>,
    pub output: Option<MethodOutput>,
    pub description: Option<String>,
}

pub struct MethodView {
    pub ident: Seq<char>,
    pub params: Seq<MethodParamView>,
    pub output: Option<MethodOutputView>,
    pub description: Option<Seq<char>>,
}

impl View for Method {
    type V = MethodView;

    open spec fn view(&self) -> MethodView {
        MethodView {
            ident: self.ident@,
            params: self.params.deep_view(),
            output: self.output.deep_view(),
            description: self.description.deep_view(),
        }
    }
}

impl DeepView for Method {
    type V = MethodView;

    open spec fn deep_view(&self) -> MethodView {
        self.view()
    }
}

/// Diagnostic of one method.
pub enum MethodError {
    /// The method-level directive attribute did not parse.
    AttrParseError(MethodAttrParseError),
    /// The method-level marker attribute occurred more than once; carries
    /// the second occurrence's span.
    DuplicateAttr(usize),
    /// A diagnostic of one of the method's parameters.
    ParamError(ParamError),
}

pub enum MethodErrorView {
    AttrParseError(GrammarErrorView),
    DuplicateAttr(usize),
    ParamError(ParamErrorView),
}

impl View for MethodError {
    type V = MethodErrorView;

    open spec fn view(&self) -> MethodErrorView {
        match self {
            MethodError::AttrParseError(e) => MethodErrorView::AttrParseError(e@),
            MethodError::DuplicateAttr(span) => MethodErrorView::DuplicateAttr(*span),
            MethodError::ParamError(e) => MethodErrorView::ParamError(e@),
        }
    }
}

impl DeepView for MethodError {
    type V = MethodErrorView;

    open spec fn deep_view(&self) -> MethodErrorView {
        self.view()
    }
}

/// Every diagnostic of one method.
pub struct MethodErrors(pub Vec<MethodError>);

impl View for MethodErrors {
    type V = Seq<MethodErrorView>;

    open spec fn view(&self) -> Seq<MethodErrorView> {
        self.0.deep_view()
    }
}

/// One step of the scan over a method's attributes.
pub open spec fn spec_method_attr_step(
    attr: AttrDefView,
    errs: Seq<MethodErrorView>,
    acc: Option<MethodAttrView>,
) -> (Seq<MethodErrorView>, Option<MethodAttrView>) {
    if attr.name != "open_api_method"@ {
        (errs, acc)
    } else {
        match spec_parse_directive_attr(attr.value, "output_schema"@, "open_api_method"@, attr.span) {
            Ok(src) => {
                if acc is Some {
                    (errs.push(MethodErrorView::DuplicateAttr(attr.span)), acc)
                } else {
                    (
                        errs,
                        Option::Some(
                            MethodAttrView { schema_source: src, span: Option::Some(attr.span) },
                        ),
                    )
                }
            },
            Err(e) => (errs.push(MethodErrorView::AttrParseError(e)), acc),
        }
    }
}

/// The diagnostics and the extracted directive of a method's attribute
/// list, scanned left to right.
pub open spec fn spec_analyze_fn_attrs(attrs: Seq<AttrDefView>) -> (
    Seq<MethodErrorView>,
    Option<MethodAttrView>,
)
    decreases attrs.len(),
{
    if attrs.len() == 0 {
        (Seq::<MethodErrorView>::empty(), Option::<MethodAttrView>::None)
    } else {
        let (errs, acc) = spec_analyze_fn_attrs(attrs.drop_last());
        spec_method_attr_step(attrs.last(), errs, acc)
    }
}

/// Scans a method's attributes, appending each diagnostic, and returns the
/// extracted directive, or the empty one when no marker attribute was
/// present.
pub fn analyze_trait_item_fn_attrs(errs: &mut Vec<MethodError>, f: &FnDef) -> (r: MethodAttr)
    ensures
        final(errs).deep_view() == old(errs).deep_view() + spec_analyze_fn_attrs(f@.attrs).0,
        ({
            let acc = spec_analyze_fn_attrs(f@.attrs).1;
            r@ == match acc {
                Option::Some(a) => a,
                Option::None => MethodAttrView {
                    schema_source: Option::<SchemaSourceView>::None,
                    span: Option::<usize>::None,
                },
            }
        }),
{
    let ghost av = f@.attrs;
    let ghost errs0 = errs.deep_view();
    let mut acc: Option<MethodAttr> = None;
    let mut i: usize = 0;
    proof {
        assert(av.take(0) =~= Seq::<AttrDefView>::empty());
        assert(errs.deep_view() =~= errs0 + spec_analyze_fn_attrs(av.take(0)).0);
    }
    while i < f.attrs.len()
        invariant
            0 <= i <= f.attrs.len(),
            av == f@.attrs,
            av.len() == f.attrs@.len(),
            errs.deep_view() == errs0 + spec_analyze_fn_attrs(av.take(i as int)).0,
            acc.deep_view() == spec_analyze_fn_attrs(av.take(i as int)).1,
        decreases f.attrs.len() - i,
    {
        proof {
            assert(av.take(i + 1).drop_last() =~= av.take(i as int));
            assert(av.take(i + 1).last() == av[i as int]);
            assert(av[i as int] == f.attrs@[i as int]@);
        }
        let ghost pre_errs = spec_analyze_fn_attrs(av.take(i as int)).0;
        match parse_method_attr(&f.attrs[i]) {
            None => {},
            Some(Ok(a)) => {
                if acc.is_some() {
                    let ghost old_errs_vec = *errs;
                    let span = match &a.span {
                        Some(s) => *s,
                        None => 0,
                    };
                    let pushed = MethodError::DuplicateAttr(span);
                    let ghost pushed_snap = pushed;
                    errs.push(pushed);
                    proof {
                        crate::viewext::lemma_vec_deep_view_push(old_errs_vec, *errs, pushed_snap);
                        assert(errs.deep_view() =~= errs0 + pre_errs.push(
                            MethodErrorView::DuplicateAttr(span),
                        ));
                    }
                } else {
                    acc = Some(a);
                }
            },
            Some(Err(e)) => {
                let ghost old_errs_vec = *errs;
                let ghost ev = e@;
                let pushed = MethodError::AttrParseError(e);
                let ghost pushed_snap = pushed;
                errs.push(pushed);
                proof {
                    crate::viewext::lemma_vec_deep_view_push(old_errs_vec, *errs, pushed_snap);
                    assert(errs.deep_view() =~= errs0 + pre_errs.push(
                        MethodErrorView::AttrParseError(ev),
                    ));
                }
            },
        }
        i = i + 1;
    }
    proof {
        assert(av.take(f.attrs@.len() as int) =~= av);
    }
    match acc {
        Some(a) => a,
        None => MethodAttr { schema_source: None, span: None },
    }
}

/// The trimmed text of a doc-comment attribute; nothing for any other
/// attribute.
pub open spec fn spec_doc_line(attr: AttrDefView) -> Option<Seq<char>> {
    if attr.name == "doc"@ {
        match attr.value {
            AttrValueView::Str(s) => Option::Some(crate::text::spec_trim(s)),
            _ => Option::<Seq<char>>::None,
        }
    } else {
        Option::<Seq<char>>::None
    }
}

/// The trimmed doc-comment lines of an attribute list, in declaration
/// order.
pub open spec fn spec_doc_lines(attrs: Seq<AttrDefView>) -> Seq<Seq<char>>
    decreases attrs.len(),
{
    if attrs.len() == 0 {
        Seq::<Seq<char>>::empty()
    } else {
        let rest = spec_doc_lines(attrs.drop_last());
        match spec_doc_line(attrs.last()) {
            Option::Some(s) => rest.push(s),
            Option::None => rest,
        }
    }
}

/// The method description: the doc-comment lines joined with newlines, or
/// nothing when there are none.
pub open spec fn spec_description(attrs: Seq<AttrDefView>) -> Option<Seq<char>> {
    let lines = spec_doc_lines(attrs);
    if lines.len() == 0 {
        Option::<Seq<char>>::None
    } else {
        Option::Some(crate::text::spec_join_lines(lines))
    }
}

/// The trimmed text of a doc-comment attribute, or nothing for any other
/// attribute.
pub fn get_doc_comment(attr: &AttrDef) -> (r: Option<String>)
    ensures
        r.deep_view() == spec_doc_line(attr@),
{
    if string_eq(&attr.name, "doc") {
        match &attr.value {
            AttrValue::Str(s) => Some(crate::text::trim_str(s.as_str())),
            _ => None,
        }
    } else {
        None
    }
}

/// The diagnostics and the model entries of a method's input list, scanned
/// left to right; receivers are skipped, and a failing parameter
/// contributes its diagnostics and no entry.
pub open spec fn spec_analyze_params(inputs: Seq<FnArgView>) -> (
    Seq<MethodErrorView>,
    Seq<MethodParamView>,
)
    decreases inputs.len(),
{
    if inputs.len() == 0 {
        (Seq::<MethodErrorView>::empty(), Seq::<MethodParamView>::empty())
    } else {
        let (errs, params) = spec_analyze_params(inputs.drop_last());
        match inputs.last() {
            FnArgView::Receiver => (errs, params),
            FnArgView::Typed(p) => match spec_analyze_param(p) {
                Ok(mp) => (errs, params.push(mp)),
                Err(es) => (
                    errs + es.map_values(|e: ParamErrorView| MethodErrorView::ParamError(e)),
                    params,
                ),
            },
        }
    }
}

/// The analysis of one method: its model entry, or every diagnostic it
/// produced, the method-level ones first, then the parameters' in
/// declaration order.
pub open spec fn spec_analyze_fn(f: FnDefView) -> Result<MethodView, Seq<MethodErrorView>> {
    let (attr_errs, mattr) = spec_analyze_fn_attrs(f.attrs);
    let (param_errs, params) = spec_analyze_params(f.inputs);
    let errs = attr_errs + param_errs;
    if errs.len() != 0 {
        Err(errs)
    } else {
        Ok(
            MethodView {
                ident: f.ident,
                params,
                output: match f.output {
                    Option::Some(ty) => Option::Some(
                        MethodOutputView {
                            ty,
                            schema_source: match mattr {
                                Option::Some(a) => match a.schema_source {
                                    Option::Some(s) => s,
                                    Option::None => spec_default_source(),
                                },
                                Option::None => spec_default_source(),
                            },
                        },
                    ),
                    Option::None => Option::<MethodOutputView>::None,
                },
                description: spec_description(f.attrs),
            },
        )
    }
}

/// Analyzes one method declaration: extracts the method-level directive,
/// analyzes every typed parameter, resolves the output, and collects the
/// doc-comment description.
pub fn analyze_trait_item_fn(f: &FnDef) -> (r: Result<Method, MethodErrors>)
    ensures
        match r {
            Ok(m) => spec_analyze_fn(f@) == Ok::<MethodView, Seq<MethodErrorView>>(m@),
            Err(es) => spec_analyze_fn(f@) == Err::<MethodView, Seq<MethodErrorView>>(es@),
        },
{
    let ghost fv = f@;
    let mut errs: Vec<MethodError> = Vec::new();
    let method_attr = analyze_trait_item_fn_attrs(&mut errs, f);
    let ghost attr_errs = spec_analyze_fn_attrs(fv.attrs).0;
    proof {
        assert(Seq::<MethodErrorView>::empty() + attr_errs =~= attr_errs);
    }
    let mut params: Vec<MethodParam> = Vec::new();
    let mut i: usize = 0;
    proof {
        assert(fv.inputs.take(0) =~= Seq::<FnArgView>::empty());
        assert(errs.deep_view() =~= attr_errs + spec_analyze_params(fv.inputs.take(0)).0);
    }
    while i < f.inputs.len()
        invariant
            0 <= i <= f.inputs.len(),
            fv == f@,
            fv.inputs.len() == f.inputs@.len(),
            attr_errs == spec_analyze_fn_attrs(fv.attrs).0,
            errs.deep_view() == attr_errs + spec_analyze_params(fv.inputs.take(i as int)).0,
            params.deep_view() == spec_analyze_params(fv.inputs.take(i as int)).1,
        decreases f.inputs.len() - i,
    {
        proof {
            assert(fv.inputs.take(i + 1).drop_last() =~= fv.inputs.take(i as int));
            assert(fv.inputs.take(i + 1).last() == fv.inputs[i as int]);
            assert(fv.inputs[i as int] == f.inputs@[i as int]@);
        }
        let ghost pre_errs = spec_analyze_params(fv.inputs.take(i as int)).0;
        let ghost pre_params = spec_analyze_params(fv.inputs.take(i as int)).1;
        match &f.inputs[i] {
            FnArg::Receiver => {},
            FnArg::Typed(p) => {
                match analyze_param(p) {
                    Ok(mp) => {
                        let ghost old_params_vec = params;
                        let ghost mp_view = mp@;
                        params.push(mp);
                        proof {
                            crate::viewext::lemma_vec_deep_view_push(
                                old_params_vec,
                                params,
                                params@.last(),
                            );
                            assert(params@.last()@ == mp_view);
                            assert(params.deep_view() =~= pre_params.push(mp_view));
                        }
                    },
                    Err(es) => {
                        let ghost es_view = es@;
                        let ghost mapped = es_view.map_values(
                            |e: ParamErrorView| MethodErrorView::ParamError(e),
                        );
                        let ghost pre = errs.deep_view();
                        let es_vec = es.0;
                        let mut j: usize = 0;
                        proof {
                            assert(mapped.take(0) =~= Seq::<MethodErrorView>::empty());
                            assert(errs.deep_view() =~= pre + mapped.take(0));
                        }
                        while j < es_vec.len()
                            invariant
                                0 <= j <= es_vec.len(),
                                es_view == es_vec.deep_view(),
                                es_view.len() == es_vec@.len(),
                                mapped == es_view.map_values(
                                    |e: ParamErrorView| MethodErrorView::ParamError(e),
                                ),
                                errs.deep_view() == pre + mapped.take(j as int),
                            decreases es_vec.len() - j,
                        {
                            let ghost old_errs_vec = errs;
                            let pushed = MethodError::ParamError(es_vec[j].duplicate());
                            let ghost pushed_snap = pushed;
                            errs.push(pushed);
                            proof {
                                crate::viewext::lemma_vec_deep_view_push(
                                    old_errs_vec,
                                    errs,
                                    pushed_snap,
                                );
                                assert(pushed_snap@ == MethodErrorView::ParamError(
                                    es_view[j as int],
                                ));
                                assert(mapped[j as int] == MethodErrorView::ParamError(
                                    es_view[j as int],
                                ));
                                assert(errs.deep_view() =~= pre + mapped.take(j + 1));
                            }
                            j = j + 1;
                        }
                        proof {
                            assert(mapped.take(es_vec@.len() as int) =~= mapped);
                            assert(errs.deep_view() =~= attr_errs + (pre_errs + mapped));
                        }
                    },
                }
            },
        }
        i = i + 1;
    }
    proof {
        assert(fv.inputs.take(f.inputs@.len() as int) =~= fv.inputs);
    }
    let ghost param_errs = spec_analyze_params(fv.inputs).0;
    let ghost all_params = spec_analyze_params(fv.inputs).1;
    if errs.len() != 0 {
        proof {
            assert(attr_errs + param_errs == errs.deep_view());
        }
        return Err(MethodErrors(errs));
    }
    proof {
        assert((attr_errs + param_errs).len() == 0);
    }
    let output = match &f.output {
        Some(ty) => Some(
            MethodOutput {
                ty: ty.clone(),
                schema_source: match method_attr.schema_source {
                    Some(s) => s,
                    None => SchemaSource::default(),
                },
            },
        ),
        None => None,
    };
    let mut lines: Vec<String> = Vec::new();
    let mut k: usize = 0;
    proof {
        assert(fv.attrs.take(0) =~= Seq::<AttrDefView>::empty());
        assert(lines.deep_view() =~= spec_doc_lines(fv.attrs.take(0)));
    }
    while k < f.attrs.len()
        invariant
            0 <= k <= f.attrs.len(),
            fv == f@,
            fv.attrs.len() == f.attrs@.len(),
            lines.deep_view() == spec_doc_lines(fv.attrs.take(k as int)),
        decreases f.attrs.len() - k,
    {
        proof {
            assert(fv.attrs.take(k + 1).drop_last() =~= fv.attrs.take(k as int));
            assert(fv.attrs.take(k + 1).last() == fv.attrs[k as int]);
            assert(fv.attrs[k as int] == f.attrs@[k as int]@);
        }
        let ghost pre_lines = spec_doc_lines(fv.attrs.take(k as int));
        match get_doc_comment(&f.attrs[k]) {
            Some(line) => {
                let ghost old_lines_vec = lines;
                let ghost line_view = line@;
                lines.push(line);
                proof {
                    crate::viewext::lemma_vec_deep_view_push(old_lines_vec, lines, lines@.last());
                    assert(lines@.last()@ == line_view);
                    assert(lines.deep_view() =~= pre_lines.push(line_view));
                }
            },
            None => {},
        }
        k = k + 1;
    }
    proof {
        assert(fv.attrs.take(f.attrs@.len() as int) =~= fv.attrs);
    }
    let description = if lines.len() == 0 {
        None
    } else {
        Some(crate::text::join_lines(&lines))
    };
    Ok(Method { ident: f.ident.clone(), params, output, description })
}

/// Whether an attribute name is the method-scoped marker, which the
/// analysis consumes and the emitted interface must not carry.
pub fn is_method_marker(name: &String) -> (r: bool)
    ensures
        r == (name@ == "open_api_method"@),
{
    string_eq(name, "open_api_method")
}

/// Whether an attribute name is the parameter-scoped marker, which the
/// analysis consumes and the emitted interface must not carry.
pub fn is_param_marker(name: &String) -> (r: bool)
    ensures
        r == (name@ == "open_api_method_arg"@),
{
    string_eq(name, "open_api_method_arg")
}

/// The attribute list without the attributes named by the given marker.
/// Marker attributes are removed whether or not they parsed, so a
/// directive never leaks into the emitted interface.
pub open spec fn spec_strip_attrs(attrs: Seq<AttrDefView>, marker: Seq<char>) -> Seq<AttrDefView>
    decreases attrs.len(),
{
    if attrs.len() == 0 {
        Seq::<AttrDefView>::empty()
    } else {
        let rest = spec_strip_attrs(attrs.drop_last(), marker);
        if attrs.last().name == marker {
            rest
        } else {
            rest.push(attrs.last())
        }
    }
}

/// A parameter with its marker attributes removed.
pub open spec fn spec_strip_param(p: ParamDefView) -> ParamDefView {
    ParamDefView {
        attrs: spec_strip_attrs(p.attrs, "open_api_method_arg"@),
        pat: p.pat,
        ty: p.ty,
    }
}

/// An input with its marker attributes removed.
pub open spec fn spec_strip_input(a: FnArgView) -> FnArgView {
    match a {
        FnArgView::Receiver => FnArgView::Receiver,
        FnArgView::Typed(p) => FnArgView::Typed(spec_strip_param(p)),
    }
}

/// A method with its own and its parameters' marker attributes removed.
pub open spec fn spec_strip_fn(f: FnDefView) -> FnDefView {
    FnDefView {
        ident: f.ident,
        attrs: spec_strip_attrs(f.attrs, "open_api_method"@),
        inputs: f.inputs.map_values(|a: FnArgView| spec_strip_input(a)),
        output: f.output,
    }
}

/// A trait item with its marker attributes removed; non-method items pass
/// through unchanged.
pub open spec fn spec_strip_item(it: TraitItemDefView) -> TraitItemDefView {
    match it {
        TraitItemDefView::Func(f) => TraitItemDefView::Func(spec_strip_fn(f)),
        TraitItemDefView::Other => TraitItemDefView::Other,
    }
}

/// The interface definition with every marker attribute removed and
/// everything else unchanged.
pub open spec fn spec_strip_trait(t: TraitDefView) -> TraitDefView {
    TraitDefView {
        ident: t.ident,
        items: t.items.map_values(|it: TraitItemDefView| spec_strip_item(it)),
    }
}

fn strip_attrs(attrs: &Vec<AttrDef>, marker: &str) -> (r: Vec<AttrDef>)
    ensures
        r.deep_view() == spec_strip_attrs(attrs.deep_view(), marker@),
{
    let ghost av = attrs.deep_view();
    let mut out: Vec<AttrDef> = Vec::new();
    let mut i: usize = 0;
    proof {
        assert(av.take(0) =~= Seq::<AttrDefView>::empty());
        assert(out.deep_view() =~= spec_strip_attrs(av.take(0), marker@));
    }
    while i < attrs.len()
        invariant
            0 <= i <= attrs.len(),
            av == attrs.deep_view(),
            av.len() == attrs@.len(),
            out.deep_view() == spec_strip_attrs(av.take(i as int), marker@),
        decreases attrs.len() - i,
    {
        proof {
            assert(av.take(i + 1).drop_last() =~= av.take(i as int));
            assert(av.take(i + 1).last() == av[i as int]);
            assert(av[i as int] == attrs@[i as int]@);
        }
        let ghost pre = spec_strip_attrs(av.take(i as int), marker@);
        if !string_eq(&attrs[i].name, marker) {
            let ghost old_out_vec = out;
            let kept = attrs[i].duplicate();
            let ghost kept_snap = kept;
            out.push(kept);
            proof {
                crate::viewext::lemma_vec_deep_view_push(old_out_vec, out, kept_snap);
                assert(out.deep_view() =~= pre.push(av[i as int]));
            }
        }
        i = i + 1;
    }
    proof {
        assert(av.take(attrs@.len() as int) =~= av);
    }
    out
}

fn strip_input(arg: &FnArg) -> (r: FnArg)
    ensures
        r@ == spec_strip_input(arg@),
{
    match arg {
        FnArg::Receiver => FnArg::Receiver,
        FnArg::Typed(p) => FnArg::Typed(
            ParamDef {
                attrs: strip_attrs(&p.attrs, "open_api_method_arg"),
                pat: p.pat.duplicate(),
                ty: p.ty.clone(),
            },
        ),
    }
}

fn strip_fn(f: &FnDef) -> (r: FnDef)
    ensures
        r@ == spec_strip_fn(f@),
{
    let mut inputs: Vec<FnArg> = Vec::new();
    let mut i: usize = 0;
    while i < f.inputs.len()
        invariant
            0 <= i <= f.inputs.len(),
            inputs@.len() == i,
            forall|j: int| 0 <= j < i ==> inputs@[j]@ == spec_strip_input(f.inputs.deep_view()[j]),
        decreases f.inputs.len() - i,
    {
        proof {
            assert(f.inputs.deep_view()[i as int] == f.inputs@[i as int]@);
        }
        inputs.push(strip_input(&f.inputs[i]));
        i = i + 1;
    }
    proof {
        assert(inputs.deep_view() =~= f.inputs.deep_view().map_values(
            |a: FnArgView| spec_strip_input(a),
        ));
    }
    let output = match &f.output {
        Some(ty) => Some(ty.clone()),
        None => None,
    };
    FnDef {
        ident: f.ident.clone(),
        attrs: strip_attrs(&f.attrs, "open_api_method"),
        inputs,
        output,
    }
}

/// The interface definition with every directive attribute removed: the
/// form in which the interface is passed through to the emitted output.
pub fn strip_trait(t: &TraitDef) -> (r: TraitDef)
    ensures
        r@ == spec_strip_trait(t@),
{
    let mut items: Vec<TraitItemDef> = Vec::new();
    let mut i: usize = 0;
    while i < t.items.len()
        invariant
            0 <= i <= t.items.len(),
            items@.len() == i,
            forall|j: int| 0 <= j < i ==> items@[j]@ == spec_strip_item(t.items.deep_view()[j]),
        decreases t.items.len() - i,
    {
        proof {
            assert(t.items.deep_view()[i as int] == t.items@[i as int]@);
        }
        let item = match &t.items[i] {
            TraitItemDef::Func(f) => TraitItemDef::Func(strip_fn(f)),
            TraitItemDef::Other => TraitItemDef::Other,
        };
        items.push(item);
        i = i + 1;
    }
    proof {
        assert(items.deep_view() =~= t.items.deep_view().map_values(
            |it: TraitItemDefView| spec_strip_item(it),
        ));
    }
    TraitDef { ident: t.ident.clone(), items }
}

/// The full analysis result: the reference-schema types in declaration
/// order, the analyzed methods in declaration order, and the
/// attribute-stripped interface definition.
pub struct Model {
    pub ref_schema_tys: Vec<String>,
    pub methods: Vec<Method>,
    pub item_trait: TraitDef,
}

pub struct ModelView {
    pub ref_schema_tys: Seq<Seq<char>>,
    pub methods: Seq<MethodView>,
    pub item_trait: TraitDefView,
}

impl View for Model {
    type V = ModelView;

    open spec fn view(&self) -> ModelView {
        ModelView {
            ref_schema_tys: self.ref_schema_tys.deep_view(),
            methods: self.methods.deep_view(),
            item_trait: self.item_trait@,
        }
    }
}

impl DeepView for Model {
    type V = ModelView;

    open spec fn deep_view(&self) -> ModelView {
        self.view()
    }
}

impl DeepView for MethodErrors {
    type V = Seq<MethodErrorView>;

    open spec fn deep_view(&self) -> Seq<MethodErrorView> {
        self.view()
    }
}

/// The aggregate of every failing method's diagnostics.
pub struct Error(pub Vec<MethodErrors>);

impl View for Error {
    type V = Seq<Seq<MethodErrorView>>;

    open spec fn view(&self) -> Seq<Seq<MethodErrorView>> {
        self.0.deep_view()
    }
}

/// The diagnostics (one set per failing method) and the model entries of
/// the interface's items, scanned in declaration order; non-method items
/// are skipped.
pub open spec fn spec_analyze_items(items: Seq<TraitItemDefView>) -> (
    Seq<Seq<MethodErrorView>>,
    Seq<MethodView>,
)
    decreases items.len(),
{
    if items.len() == 0 {
        (Seq::<Seq<MethodErrorView>>::empty(), Seq::<MethodView>::empty())
    } else {
        let (errsets, methods) = spec_analyze_items(items.drop_last());
        match items.last() {
            TraitItemDefView::Func(f) => match spec_analyze_fn(f) {
                Ok(m) => (errsets, methods.push(m)),
                Err(es) => (errsets.push(es), methods),
            },
            TraitItemDefView::Other => (errsets, methods),
        }
    }
}

/// The analysis of the whole parsed invocation: the model, or one
/// diagnostic set per failing method, every method having been visited.
pub open spec fn spec_analyze(ast: crate::parse::AstView) -> Result<
    ModelView,
    Seq<Seq<MethodErrorView>>,
> {
    let tys = match ast.ref_schema_tys {
        Option::Some(t) => t,
        Option::None => Seq::<Seq<char>>::empty(),
    };
    let (errsets, methods) = spec_analyze_items(ast.item_trait.items);
    if errsets.len() == 0 {
        Ok(
            ModelView {
                ref_schema_tys: tys,
                methods,
                item_trait: spec_strip_trait(ast.item_trait),
            },
        )
    } else {
        Err(errsets)
    }
}

/// Analyzes the parsed invocation: visits every method, accumulating every
/// diagnostic, and succeeds only when no method produced any, handing on
/// the stripped interface definition.
pub fn analyze(ast: crate::parse::Ast) -> (r: Result<Model, Error>)
    ensures
        match r {
            Ok(m) => spec_analyze(ast@) == Ok::<ModelView, Seq<Seq<MethodErrorView>>>(m@),
            Err(e) => spec_analyze(ast@) == Err::<ModelView, Seq<Seq<MethodErrorView>>>(e@),
        },
{
    let ghost av = ast@;
    let crate::parse::Ast { ref_schema_tys, item_trait } = ast;
    let tys = match ref_schema_tys {
        Some(v) => v,
        None => Vec::new(),
    };
    proof {
        if av.ref_schema_tys is None {
            assert(tys.deep_view() =~= Seq::<Seq<char>>::empty());
        }
    }
    let ghost iv = item_trait@.items;
    let mut methods: Vec<Method> = Vec::new();
    let mut errsets: Vec<MethodErrors> = Vec::new();
    let mut i: usize = 0;
    proof {
        assert(iv.take(0) =~= Seq::<TraitItemDefView>::empty());
    }
    while i < item_trait.items.len()
        invariant
            0 <= i <= item_trait.items.len(),
            iv == item_trait@.items,
            iv.len() == item_trait.items@.len(),
            errsets.deep_view() == spec_analyze_items(iv.take(i as int)).0,
            methods.deep_view() == spec_analyze_items(iv.take(i as int)).1,
        decreases item_trait.items.len() - i,
    {
        proof {
            assert(iv.take(i + 1).drop_last() =~= iv.take(i as int));
            assert(iv.take(i + 1).last() == iv[i as int]);
            assert(iv[i as int] == item_trait.items@[i as int]@);
        }
        let ghost pre_errsets = spec_analyze_items(iv.take(i as int)).0;
        let ghost pre_methods = spec_analyze_items(iv.take(i as int)).1;
        match &item_trait.items[i] {
            TraitItemDef::Func(f) => match analyze_trait_item_fn(f) {
                Ok(m) => {
                    let ghost old_methods_vec = methods;
                    let ghost m_view = m@;
                    methods.push(m);
                    proof {
                        crate::viewext::lemma_vec_deep_view_push(
                            old_methods_vec,
                            methods,
                            methods@.last(),
                        );
                        assert(methods@.last()@ == m_view);
                        assert(methods.deep_view() =~= pre_methods.push(m_view));
                    }
                },
                Err(es) => {
                    let ghost old_errsets_vec = errsets;
                    let ghost es_view = es@;
                    errsets.push(es);
                    proof {
                        crate::viewext::lemma_vec_deep_view_push(
                            old_errsets_vec,
                            errsets,
                            errsets@.last(),
                        );
                        assert(errsets@.last().deep_view() == es_view);
                        assert(errsets.deep_view() =~= pre_errsets.push(es_view));
                    }
                },
            },
            TraitItemDef::Other => {},
        }
        i = i + 1;
    }
    proof {
        assert(iv.take(item_trait.items@.len() as int) =~= iv);
    }
    if errsets.len() == 0 {
        let stripped = strip_trait(&item_trait);
        Ok(Model { ref_schema_tys: tys, methods, item_trait: stripped })
    } else {
        Err(Error(errsets))
    }
}

} // verus!
