use vstd::prelude::*;

verus! {

/// A context that may know where output goes.
pub trait HasOut {
    type OutInfo;

    /// What `out_info` lends.
    type OutInfoRef;

    fn out_info(&self) -> Option<&Self::OutInfoRef>;

    fn out_info_owned(&self) -> Option<Self::OutInfo>;

    /// Whether `out_info` has something to lend.
    fn exist_out(&self) -> (b: bool)
        ensures
            exists|info: Option<&Self::OutInfoRef>| #[trigger]
                call_ensures(Self::out_info, (self,), info) && b == info is Some,
    {
        self.out_info().is_some()
    }
}

/// A context that may hold input.
pub trait HasIn {
    type InInfo;

    /// What `in_info` lends.
    type InInfoRef;

    fn in_info(&self) -> Option<&Self::InInfoRef>;

    fn in_info_owned(&self) -> Option<Self::InInfo>;

    /// Whether `in_info` has something to lend.
    fn exist_in(&self) -> (b: bool)
        ensures
            exists|info: Option<&Self::InInfoRef>| #[trigger]
                call_ensures(Self::in_info, (self,), info) && b == info is Some,
    {
        self.in_info().is_some()
    }
}

} // verus!
