use crate::err::LlccB;
use vstd::prelude::*;

verus! {

/// Marks what has an effect on the world outside.
pub trait Effect {}

/// What can hand its result on; the receiver need not be a file system.
pub trait WriteOut: Effect {
    type Out;

    fn emit(&self) -> LlccB<Self::Out>;
}

pub trait ReadIn {
    type In;

    fn load(&self) -> LlccB<Self::In>;
}

pub trait Exec: Effect {
    type Status;

    fn exec(&self) -> LlccB<Self::Status>;
}

} // verus!
