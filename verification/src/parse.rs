//! Parsing of the macro invocation arguments and classification of the
//! annotated item.
//!
//! The argument grammar recognizes exactly one top-level key,
//! `ref_schemas`, whose value is a bracketed, comma-separated list of type
//! expressions; any other key is a diagnostic naming it, and setting
//! `ref_schemas` twice is a diagnostic. The annotated item must be a
//! trait-like interface definition: anything else is an unrecoverable
//! misuse of the annotation, reported as [`ParseError::NotATrait`] for the
//! host front end to abort on.

use vstd::prelude::*;

use crate::ast::{ItemDef, ItemDefView, MetaArg, MetaArgView, MetaItem, MetaItemView, TraitDef,
    TraitDefView};
use crate::diag::{GrammarError, GrammarErrorKind, GrammarErrorKindView, GrammarErrorView};
use crate::text::string_eq;

verus! {

/// The parsed invocation: the reference-schema type list, if given, and the
/// interface definition.
pub struct Ast {
    pub ref_schema_tys: Option<Vec<String>>,
    pub item_trait: TraitDef,
}

pub struct AstView {
    pub ref_schema_tys: Option<Seq<Seq<char>>>,
    pub item_trait: TraitDefView,
}

impl View for Ast {
    type V = AstView;

    open spec fn view(&self) -> AstView {
        AstView {
            ref_schema_tys: self.ref_schema_tys.deep_view(),
            item_trait: self.item_trait@,
        }
    }
}

impl DeepView for Ast {
    type V = AstView;

    open spec fn deep_view(&self) -> AstView {
        self.view()
    }
}

/// Why the invocation could not be parsed.
pub enum ParseError {
    /// A diagnostic of the argument grammar.
    Grammar(GrammarError),
    /// The annotated item is not a trait-like interface definition.
    NotATrait,
}

pub enum ParseErrorView {
    Grammar(GrammarErrorView),
    NotATrait,
}

impl View for ParseError {
    type V = ParseErrorView;

    open spec fn view(&self) -> ParseErrorView {
        match self {
            ParseError::Grammar(e) => ParseErrorView::Grammar(e@),
            ParseError::NotATrait => ParseErrorView::NotATrait,
        }
    }
}

impl DeepView for ParseError {
    type V = ParseErrorView;

    open spec fn deep_view(&self) -> ParseErrorView {
        self.view()
    }
}

/// One step over an invocation argument: the key must be `ref_schemas`, at
/// most once, with a bracketed type list.
pub open spec fn spec_parse_arg(item: MetaItemView, acc: Option<Seq<Seq<char>>>) -> Result<
    Option<Seq<Seq<char>>>,
    GrammarErrorView,
> {
    if item.key == "ref_schemas"@ {
        if acc is Some {
            Err(
                GrammarErrorView {
                    span: item.span,
                    kind: GrammarErrorKindView::DuplicateKey("ref_schemas"@),
                },
            )
        } else {
            match item.value {
                MetaArgView::Types(tys) => Ok(Option::Some(tys)),
                _ => Err(
                    GrammarErrorView {
                        span: item.span,
                        kind: GrammarErrorKindView::ExpectedTypeList("ref_schemas"@),
                    },
                ),
            }
        }
    } else {
        Err(GrammarErrorView { span: item.span, kind: GrammarErrorKindView::UnexpectedKey(item.key) })
    }
}

/// Result of parsing the invocation arguments, left to right, the first
/// diagnostic winning.
pub open spec fn spec_parse_args(args: Seq<MetaItemView>) -> Result<
    Option<Seq<Seq<char>>>,
    GrammarErrorView,
>
    decreases args.len(),
{
    if args.len() == 0 {
        Ok(Option::<Seq<Seq<char>>>::None)
    } else {
        match spec_parse_args(args.drop_last()) {
            Ok(acc) => spec_parse_arg(args.last(), acc),
            Err(e) => Err(e),
        }
    }
}

/// Result of parsing the whole invocation.
pub open spec fn spec_parse(args: Seq<MetaItemView>, item: ItemDefView) -> Result<
    AstView,
    ParseErrorView,
> {
    match spec_parse_args(args) {
        Err(e) => Err(ParseErrorView::Grammar(e)),
        Ok(tys) => match item {
            ItemDefView::Trait(t) => Ok(AstView { ref_schema_tys: tys, item_trait: t }),
            ItemDefView::Other => Err(ParseErrorView::NotATrait),
        },
    }
}

proof fn lemma_parse_args_err(args: Seq<MetaItemView>, n: int, e: GrammarErrorView)
    requires
        0 <= n <= args.len(),
        spec_parse_args(args.take(n)) == Err::<Option<Seq<Seq<char>>>, GrammarErrorView>(e),
    ensures
        spec_parse_args(args) == Err::<Option<Seq<Seq<char>>>, GrammarErrorView>(e),
    decreases args.len() - n,
{
    if n == args.len() {
        assert(args.take(n) =~= args);
    } else {
        assert(args.take(n + 1).drop_last() =~= args.take(n));
        lemma_parse_args_err(args, n + 1, e);
    }
}

/// Parses the invocation arguments and classifies the annotated item.
pub fn parse(args: Vec<MetaItem>, item: ItemDef) -> (r: Result<Ast, ParseError>)
    ensures
        match r {
            Ok(ast) => spec_parse(args.deep_view(), item@) == Ok::<AstView, ParseErrorView>(ast@),
            Err(e) => spec_parse(args.deep_view(), item@) == Err::<AstView, ParseErrorView>(e@),
        },
{
    let ghost av = args.deep_view();
    let mut acc: Option<Vec<String>> = None;
    let mut i: usize = 0;
    proof {
        assert(av.take(0) =~= Seq::<MetaItemView>::empty());
    }
    while i < args.len()
        invariant
            0 <= i <= args.len(),
            av == args.deep_view(),
            av.len() == args@.len(),
            spec_parse_args(av.take(i as int)) == Ok::<Option<Seq<Seq<char>>>, GrammarErrorView>(
                acc.deep_view(),
            ),
        decreases args.len() - i,
    {
        proof {
            assert(av.take(i + 1).drop_last() =~= av.take(i as int));
            assert(av.take(i + 1).last() == av[i as int]);
            assert(av[i as int] == args@[i as int]@);
        }
        let arg = &args[i];
        if string_eq(&arg.key, "ref_schemas") {
            if acc.is_some() {
                let e = GrammarError {
                    span: arg.span,
                    kind: GrammarErrorKind::DuplicateKey("ref_schemas".to_owned()),
                };
                proof {
                    lemma_parse_args_err(av, i + 1, e@);
                }
                return Err(ParseError::Grammar(e));
            }
            match &arg.value {
                MetaArg::Types(tys) => {
                    acc = Some(crate::text::duplicate_strings(tys));
                },
                _ => {
                    let e = GrammarError {
                        span: arg.span,
                        kind: GrammarErrorKind::ExpectedTypeList("ref_schemas".to_owned()),
                    };
                    proof {
                        lemma_parse_args_err(av, i + 1, e@);
                    }
                    return Err(ParseError::Grammar(e));
                },
            }
        } else {
            let e = GrammarError {
                span: arg.span,
                kind: GrammarErrorKind::UnexpectedKey(arg.key.clone()),
            };
            proof {
                lemma_parse_args_err(av, i + 1, e@);
            }
            return Err(ParseError::Grammar(e));
        }
        i = i + 1;
    }
    proof {
        assert(av.take(args@.len() as int) =~= av);
    }
    match item {
        ItemDef::Trait(item_trait) => Ok(Ast { ref_schema_tys: acc, item_trait }),
        ItemDef::Other => Err(ParseError::NotATrait),
    }
}

} // verus!
