//! Located diagnostics for the directive grammar.
//!
//! A diagnostic is structured: it carries the offending span index and what
//! went wrong, with the offending name as a value. The host front end
//! renders the message text and attaches it to the real source location.

use vstd::prelude::*;

verus! {

/// What a directive-grammar diagnostic says.
pub enum GrammarErrorKind {
    /// A first-level key other than the one the grammar recognizes; carries
    /// the unexpected key.
    UnexpectedKey(String),
    /// A second-level key other than `PartialSchema` or `ToSchema`; carries
    /// the unexpected key.
    UnexpectedValue(String),
    /// A recognized key set more than once; carries the key.
    DuplicateKey(String),
    /// A key that needs parenthesized arguments stood with another value
    /// shape; carries the key.
    ExpectedArgList(String),
    /// A key that takes an optional `= "Type"` string stood with another
    /// value shape; carries the key.
    ExpectedStrValue(String),
    /// A key that needs a bracketed type list stood with another value
    /// shape; carries the key.
    ExpectedTypeList(String),
}

pub enum GrammarErrorKindView {
    UnexpectedKey(Seq<char>),
    UnexpectedValue(Seq<char>),
    DuplicateKey(Seq<char>),
    ExpectedArgList(Seq<char>),
    ExpectedStrValue(Seq<char>),
    ExpectedTypeList(Seq<char>),
}

impl View for GrammarErrorKind {
    type V = GrammarErrorKindView;

    open spec fn view(&self) -> GrammarErrorKindView {
        match self {
            GrammarErrorKind::UnexpectedKey(k) => GrammarErrorKindView::UnexpectedKey(k@),
            GrammarErrorKind::UnexpectedValue(k) => GrammarErrorKindView::UnexpectedValue(k@),
            GrammarErrorKind::DuplicateKey(k) => GrammarErrorKindView::DuplicateKey(k@),
            GrammarErrorKind::ExpectedArgList(k) => GrammarErrorKindView::ExpectedArgList(k@),
            GrammarErrorKind::ExpectedStrValue(k) => GrammarErrorKindView::ExpectedStrValue(k@),
            GrammarErrorKind::ExpectedTypeList(k) => GrammarErrorKindView::ExpectedTypeList(k@),
        }
    }
}

impl DeepView for GrammarErrorKind {
    type V = GrammarErrorKindView;

    open spec fn deep_view(&self) -> GrammarErrorKindView {
        self.view()
    }
}

impl GrammarErrorKind {
    /// A copy with the same view.
    pub fn duplicate(&self) -> (r: GrammarErrorKind)
        ensures
            r@ == self@,
    {
        match self {
            GrammarErrorKind::UnexpectedKey(k) => GrammarErrorKind::UnexpectedKey(k.clone()),
            GrammarErrorKind::UnexpectedValue(k) => GrammarErrorKind::UnexpectedValue(k.clone()),
            GrammarErrorKind::DuplicateKey(k) => GrammarErrorKind::DuplicateKey(k.clone()),
            GrammarErrorKind::ExpectedArgList(k) => GrammarErrorKind::ExpectedArgList(k.clone()),
            GrammarErrorKind::ExpectedStrValue(k) => GrammarErrorKind::ExpectedStrValue(k.clone()),
            GrammarErrorKind::ExpectedTypeList(k) => GrammarErrorKind::ExpectedTypeList(k.clone()),
        }
    }
}

/// One located diagnostic of the directive grammar.
pub struct GrammarError {
    pub span: usize,
    pub kind: GrammarErrorKind,
}

pub struct GrammarErrorView {
    pub span: usize,
    pub kind: GrammarErrorKindView,
}

impl View for GrammarError {
    type V = GrammarErrorView;

    open spec fn view(&self) -> GrammarErrorView {
        GrammarErrorView { span: self.span, kind: self.kind@ }
    }
}

impl DeepView for GrammarError {
    type V = GrammarErrorView;

    open spec fn deep_view(&self) -> GrammarErrorView {
        self.view()
    }
}

impl GrammarError {
    /// A copy with the same view.
    pub fn duplicate(&self) -> (r: GrammarError)
        ensures
            r@ == self@,
    {
        GrammarError { span: self.span, kind: self.kind.duplicate() }
    }
}

} // verus!
