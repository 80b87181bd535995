//! Lowering of the analysis model to the intermediate representation the
//! generator consumes.
//!
//! The transform is pure, infallible, and structure-preserving: it exists
//! as the seam between "what was declared" and "what will be emitted", so
//! that the two can diverge later without coupling the analyzer to the
//! generator.

use vstd::prelude::*;

use crate::analyze::{Method, MethodView, Model, ModelView};
use crate::ast::{TraitDef, TraitDefView};

verus! {

/// The intermediate representation: structurally identical to the model at
/// present.
pub struct Ir {
    pub ref_schema_tys: Vec<String>,
    pub methods: Vec<Method>,
    pub item_trait: TraitDef,
}

pub struct IrView {
    pub ref_schema_tys: Seq<Seq<char>>,
    pub methods: Seq<MethodView>,
    pub item_trait: TraitDefView,
}

impl View for Ir {
    type V = IrView;

    open spec fn view(&self) -> IrView {
        IrView {
            ref_schema_tys: self.ref_schema_tys.deep_view(),
            methods: self.methods.deep_view(),
            item_trait: self.item_trait@,
        }
    }
}

impl DeepView for Ir {
    type V = IrView;

    open spec fn deep_view(&self) -> IrView {
        self.view()
    }
}

/// The identity transform from model to intermediate representation.
pub open spec fn spec_lower(model: ModelView) -> IrView {
    IrView {
        ref_schema_tys: model.ref_schema_tys,
        methods: model.methods,
        item_trait: model.item_trait,
    }
}

/// Lowers the model to the intermediate representation, preserving every
/// part of it unchanged.
pub fn lower(model: Model) -> (ir: Ir)
    ensures
        ir@ == spec_lower(model@),
{
    let Model { ref_schema_tys, methods, item_trait } = model;
    Ir { ref_schema_tys, methods, item_trait }
}

} // verus!
