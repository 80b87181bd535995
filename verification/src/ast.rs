//! Plain-value model of the annotated interface definition.
//!
//! The host front end parses the raw token stream and hands the pieces this
//! crate reads over as plain values: identifiers and type expressions as
//! their textual form, attribute arguments as a shallow key/value tree, and
//! source locations as opaque span indices that the front end can map back
//! to real locations when it renders diagnostics.
//!
//! The attribute tree is bounded to the nesting levels the directive grammar
//! can mention: an attribute's argument list holds [`MetaItem`] entries
//! (`schema(...)`), each of those holds [`MetaInner`] entries
//! (`PartialSchema = "Type"`), and each of those holds a [`MetaLeaf`].
//! Anything deeper or of another shape is collapsed to an `Other` variant,
//! which the grammar rejects with a located diagnostic.

use vstd::prelude::*;

verus! {

/// Value position of an inner (second-level) meta entry.
pub enum MetaLeaf {
    /// Bare key, no value: `PartialSchema`.
    Empty,
    /// String value: `PartialSchema = "Type"`.
    Str(String),
    /// Any other value shape (a non-string literal, a nested list, ...).
    Other,
}

pub enum MetaLeafView {
    Empty,
    Str(Seq<char>),
    Other,
}

impl View for MetaLeaf {
    type V = MetaLeafView;

    open spec fn view(&self) -> MetaLeafView {
        match self {
            MetaLeaf::Empty => MetaLeafView::Empty,
            MetaLeaf::Str(s) => MetaLeafView::Str(s@),
            MetaLeaf::Other => MetaLeafView::Other,
        }
    }
}

impl DeepView for MetaLeaf {
    type V = MetaLeafView;

    open spec fn deep_view(&self) -> MetaLeafView {
        self.view()
    }
}

impl MetaLeaf {
    /// A copy with the same view.
    pub fn duplicate(&self) -> (r: MetaLeaf)
        ensures
            r@ == self@,
    {
        match self {
            MetaLeaf::Empty => MetaLeaf::Empty,
            MetaLeaf::Str(s) => MetaLeaf::Str(s.clone()),
            MetaLeaf::Other => MetaLeaf::Other,
        }
    }
}

/// Inner (second-level) meta entry: a key with an optional value, as in
/// `PartialSchema = "Type"`.
pub struct MetaInner {
    pub key: String,
    pub span: usize,
    pub value: MetaLeaf,
}

pub struct MetaInnerView {
    pub key: Seq<char>,
    pub span: usize,
    pub value: MetaLeafView,
}

impl View for MetaInner {
    type V = MetaInnerView;

    open spec fn view(&self) -> MetaInnerView {
        MetaInnerView { key: self.key@, span: self.span, value: self.value@ }
    }
}

impl DeepView for MetaInner {
    type V = MetaInnerView;

    open spec fn deep_view(&self) -> MetaInnerView {
        self.view()
    }
}

impl MetaInner {
    /// A copy with the same view.
    pub fn duplicate(&self) -> (r: MetaInner)
        ensures
            r@ == self@,
    {
        MetaInner { key: self.key.clone(), span: self.span, value: self.value.duplicate() }
    }
}

/// Value position of an outer (first-level) meta entry.
pub enum MetaArg {
    /// Bare key, no value.
    Empty,
    /// Parenthesized entries: `schema(...)`.
    List(Vec<MetaInner>),
    /// String value.
    Str(String),
    /// Bracketed type list: `ref_schemas [A, B]`, each type as its text.
    Types(Vec<String>),
    /// Any other shape.
    Other,
}

pub enum MetaArgView {
    Empty,
    List(Seq<MetaInnerView>),
    Str(Seq<char>),
    Types(Seq<Seq<char>>),
    Other,
}

impl View for MetaArg {
    type V = MetaArgView;

    open spec fn view(&self) -> MetaArgView {
        match self {
            MetaArg::Empty => MetaArgView::Empty,
            MetaArg::List(items) => MetaArgView::List(items.deep_view()),
            MetaArg::Str(s) => MetaArgView::Str(s@),
            MetaArg::Types(tys) => MetaArgView::Types(tys.deep_view()),
            MetaArg::Other => MetaArgView::Other,
        }
    }
}

impl DeepView for MetaArg {
    type V = MetaArgView;

    open spec fn deep_view(&self) -> MetaArgView {
        self.view()
    }
}

impl MetaArg {
    /// A copy with the same view.
    pub fn duplicate(&self) -> (r: MetaArg)
        ensures
            r@ == self@,
    {
        match self {
            MetaArg::Empty => MetaArg::Empty,
            MetaArg::List(items) => {
                let mut out: Vec<MetaInner> = Vec::new();
                let mut i: usize = 0;
                while i < items.len()
                    invariant
                        0 <= i <= items.len(),
                        out@.len() == i,
                        forall|j: int| 0 <= j < i ==> out@[j]@ == items@[j]@,
                    decreases items.len() - i,
                {
                    out.push(items[i].duplicate());
                    i = i + 1;
                }
                proof {
                    assert(out.deep_view() =~= items.deep_view());
                }
                MetaArg::List(out)
            },
            MetaArg::Str(s) => MetaArg::Str(s.clone()),
            MetaArg::Types(tys) => {
                let mut out: Vec<String> = Vec::new();
                let mut i: usize = 0;
                while i < tys.len()
                    invariant
                        0 <= i <= tys.len(),
                        out@.len() == i,
                        forall|j: int| 0 <= j < i ==> out@[j]@ == tys@[j]@,
                    decreases tys.len() - i,
                {
                    out.push(tys[i].clone());
                    i = i + 1;
                }
                proof {
                    assert(out.deep_view() =~= tys.deep_view());
                }
                MetaArg::Types(out)
            },
            MetaArg::Other => MetaArg::Other,
        }
    }
}

/// Outer (first-level) meta entry of an attribute's argument list or of the
/// macro invocation arguments, as in `schema(...)` or `ref_schemas [A, B]`.
pub struct MetaItem {
    pub key: String,
    pub span: usize,
    pub value: MetaArg,
}

pub struct MetaItemView {
    pub key: Seq<char>,
    pub span: usize,
    pub value: MetaArgView,
}

impl View for MetaItem {
    type V = MetaItemView;

    open spec fn view(&self) -> MetaItemView {
        MetaItemView { key: self.key@, span: self.span, value: self.value@ }
    }
}

impl DeepView for MetaItem {
    type V = MetaItemView;

    open spec fn deep_view(&self) -> MetaItemView {
        self.view()
    }
}

impl MetaItem {
    /// A copy with the same view.
    pub fn duplicate(&self) -> (r: MetaItem)
        ensures
            r@ == self@,
    {
        MetaItem { key: self.key.clone(), span: self.span, value: self.value.duplicate() }
    }
}

/// Argument shape of a whole attribute.
pub enum AttrValue {
    /// No arguments at all: `#[open_api_method]`.
    Empty,
    /// Parenthesized entries: `#[open_api_method(...)]`.
    List(Vec<MetaItem>),
    /// String value: `#[doc = "..."]`.
    Str(String),
    /// Any other shape.
    Other,
}

pub enum AttrValueView {
    Empty,
    List(Seq<MetaItemView>),
    Str(Seq<char>),
    Other,
}

impl View for AttrValue {
    type V = AttrValueView;

    open spec fn view(&self) -> AttrValueView {
        match self {
            AttrValue::Empty => AttrValueView::Empty,
            AttrValue::List(items) => AttrValueView::List(items.deep_view()),
            AttrValue::Str(s) => AttrValueView::Str(s@),
            AttrValue::Other => AttrValueView::Other,
        }
    }
}

impl DeepView for AttrValue {
    type V = AttrValueView;

    open spec fn deep_view(&self) -> AttrValueView {
        self.view()
    }
}

impl AttrValue {
    /// A copy with the same view.
    pub fn duplicate(&self) -> (r: AttrValue)
        ensures
            r@ == self@,
    {
        match self {
            AttrValue::Empty => AttrValue::Empty,
            AttrValue::List(items) => {
                let mut out: Vec<MetaItem> = Vec::new();
                let mut i: usize = 0;
                while i < items.len()
                    invariant
                        0 <= i <= items.len(),
                        out@.len() == i,
                        forall|j: int| 0 <= j < i ==> out@[j]@ == items@[j]@,
                    decreases items.len() - i,
                {
                    out.push(items[i].duplicate());
                    i = i + 1;
                }
                proof {
                    assert(out.deep_view() =~= items.deep_view());
                }
                AttrValue::List(out)
            },
            AttrValue::Str(s) => AttrValue::Str(s.clone()),
            AttrValue::Other => AttrValue::Other,
        }
    }
}

/// One attribute of a method or of a parameter: its path as text, its span,
/// and its argument shape.
pub struct AttrDef {
    pub name: String,
    pub span: usize,
    pub value: AttrValue,
}

pub struct AttrDefView {
    pub name: Seq<char>,
    pub span: usize,
    pub value: AttrValueView,
}

impl View for AttrDef {
    type V = AttrDefView;

    open spec fn view(&self) -> AttrDefView {
        AttrDefView { name: self.name@, span: self.span, value: self.value@ }
    }
}

impl DeepView for AttrDef {
    type V = AttrDefView;

    open spec fn deep_view(&self) -> AttrDefView {
        self.view()
    }
}

impl AttrDef {
    /// A copy with the same view.
    pub fn duplicate(&self) -> (r: AttrDef)
        ensures
            r@ == self@,
    {
        AttrDef { name: self.name.clone(), span: self.span, value: self.value.duplicate() }
    }
}

/// Binding pattern of a parameter.
pub enum PatDef {
    /// A simple name.
    Ident(String),
    /// Any other pattern shape, carried as its textual form for diagnostics,
    /// with its span.
    Other { text: String, span: usize },
}

pub enum PatDefView {
    Ident(Seq<char>),
    Other { text: Seq<char>, span: usize },
}

impl View for PatDef {
    type V = PatDefView;

    open spec fn view(&self) -> PatDefView {
        match self {
            PatDef::Ident(name) => PatDefView::Ident(name@),
            PatDef::Other { text, span } => PatDefView::Other { text: text@, span: *span },
        }
    }
}

impl DeepView for PatDef {
    type V = PatDefView;

    open spec fn deep_view(&self) -> PatDefView {
        self.view()
    }
}

impl PatDef {
    /// A copy with the same view.
    pub fn duplicate(&self) -> (r: PatDef)
        ensures
            r@ == self@,
    {
        match self {
            PatDef::Ident(name) => PatDef::Ident(name.clone()),
            PatDef::Other { text, span } => PatDef::Other { text: text.clone(), span: *span },
        }
    }
}

/// One typed (non-receiver) parameter of a method.
pub struct ParamDef {
    pub attrs: Vec<AttrDef>,
    pub pat: PatDef,
    /// Declared type, as its textual form.
    pub ty: String,
}

pub struct ParamDefView {
    pub attrs: Seq<AttrDefView>,
    pub pat: PatDefView,
    pub ty: Seq<char>,
}

impl View for ParamDef {
    type V = ParamDefView;

    open spec fn view(&self) -> ParamDefView {
        ParamDefView { attrs: self.attrs.deep_view(), pat: self.pat@, ty: self.ty@ }
    }
}

impl DeepView for ParamDef {
    type V = ParamDefView;

    open spec fn deep_view(&self) -> ParamDefView {
        self.view()
    }
}

/// One input of a method's signature.
pub enum FnArg {
    /// A receiver (`&self` and friends): skipped by the analysis.
    Receiver,
    /// A typed parameter.
    Typed(ParamDef),
}

pub enum FnArgView {
    Receiver,
    Typed(ParamDefView),
}

impl View for FnArg {
    type V = FnArgView;

    open spec fn view(&self) -> FnArgView {
        match self {
            FnArg::Receiver => FnArgView::Receiver,
            FnArg::Typed(param) => FnArgView::Typed(param@),
        }
    }
}

impl DeepView for FnArg {
    type V = FnArgView;

    open spec fn deep_view(&self) -> FnArgView {
        self.view()
    }
}

/// One method declaration of the interface.
pub struct FnDef {
    pub ident: String,
    pub attrs: Vec<AttrDef>,
    pub inputs: Vec<FnArg>,
    /// Declared return type, as its textual form; absent when the signature
    /// declares none.
    pub output: Option<String>,
}

pub struct FnDefView {
    pub ident: Seq<char>,
    pub attrs: Seq<AttrDefView>,
    pub inputs: Seq<FnArgView>,
    pub output: Option<Seq<char>>,
}

impl View for FnDef {
    type V = FnDefView;

    open spec fn view(&self) -> FnDefView {
        FnDefView {
            ident: self.ident@,
            attrs: self.attrs.deep_view(),
            inputs: self.inputs.deep_view(),
            output: self.output.deep_view(),
        }
    }
}

impl DeepView for FnDef {
    type V = FnDefView;

    open spec fn deep_view(&self) -> FnDefView {
        self.view()
    }
}

/// One item of the interface definition.
pub enum TraitItemDef {
    /// A method declaration.
    Func(FnDef),
    /// Any other item kind (an associated type, a differently-annotated
    /// declaration, ...): skipped by the analysis and passed through
    /// unchanged.
    Other,
}

pub enum TraitItemDefView {
    Func(FnDefView),
    Other,
}

impl View for TraitItemDef {
    type V = TraitItemDefView;

    open spec fn view(&self) -> TraitItemDefView {
        match self {
            TraitItemDef::Func(f) => TraitItemDefView::Func(f@),
            TraitItemDef::Other => TraitItemDefView::Other,
        }
    }
}

impl DeepView for TraitItemDef {
    type V = TraitItemDefView;

    open spec fn deep_view(&self) -> TraitItemDefView {
        self.view()
    }
}

/// The interface definition itself.
pub struct TraitDef {
    pub ident: String,
    pub items: Vec<TraitItemDef>,
}

pub struct TraitDefView {
    pub ident: Seq<char>,
    pub items: Seq<TraitItemDefView>,
}

impl View for TraitDef {
    type V = TraitDefView;

    open spec fn view(&self) -> TraitDefView {
        TraitDefView { ident: self.ident@, items: self.items.deep_view() }
    }
}

impl DeepView for TraitDef {
    type V = TraitDefView;

    open spec fn deep_view(&self) -> TraitDefView {
        self.view()
    }
}

/// The annotated item, as far as this crate reads it.
pub enum ItemDef {
    /// A trait-like interface definition.
    Trait(TraitDef),
    /// Any other item kind: misuse of the annotation.
    Other,
}

pub enum ItemDefView {
    Trait(TraitDefView),
    Other,
}

impl View for ItemDef {
    type V = ItemDefView;

    open spec fn view(&self) -> ItemDefView {
        match self {
            ItemDef::Trait(t) => ItemDefView::Trait(t@),
            ItemDef::Other => ItemDefView::Other,
        }
    }
}

impl DeepView for ItemDef {
    type V = ItemDefView;

    open spec fn deep_view(&self) -> ItemDefView {
        self.view()
    }
}

} // verus!
