//! The vocabulary of the pipeline: what a context carries, what a layer
//! converts, and what a stage can do.

use crate::err::LlccB;
use crate::semantics::ability::{Exec, ReadIn};
use crate::semantics::context::{HasIn, HasOut};
use vstd::prelude::*;

pub mod ability;
pub mod context;
pub mod purpose;

verus! {

/// Conversion of one representation into another.
pub trait Convert<LayerFrom, LayerTo, const REVERSIBLE: bool> {
    fn convert(&self);
}

pub trait Orchestrate {}

pub trait Runner: HasIn + ReadIn + Exec {
    type Outcome: RunState;

    fn run(&self) -> LlccB<Self::Outcome>;
}

pub trait RunState {
    type State;

    fn state(&self) -> Self::State;
}

pub trait Ctx {
    /// description of context role
    const ROLE: &'static str;
}

pub trait RunCtx: Ctx + HasOut + HasIn {
    /// The context itself, seen as a run context.
    fn as_run_ctx(&self) -> &Self where Self: Sized
        returns
            self,
    {
        self
    }
}

pub trait SrcCtx: Ctx + HasOut + HasIn {
    /// The context itself, seen as a source context.
    fn as_src_ctx(&self) -> &Self where Self: Sized
        returns
            self,
    {
        self
    }
}

pub trait CompileCtx: Ctx + HasOut + HasIn {}

pub trait Compiler<C: CompileCtx> {}

} // verus!
