use crate::semantics::ability::ReadIn;
use crate::semantics::context::{HasIn, HasOut};
use crate::semantics::Convert;
use vstd::prelude::*;

verus! {

pub trait Layer<LayerFrom, LayerTo, const REVERSIBLE: bool>: Convert<
    LayerFrom,
    LayerTo,
    REVERSIBLE,
> + HasIn + HasOut {}

pub trait LayerBuilder: HasIn + HasOut + ReadIn {}

} // verus!
