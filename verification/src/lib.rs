use crate::err::{unknown_place, LlccB, LlccError, ReShape, B};
use vstd::prelude::*;
use vstd::string::StringExecFns;

pub mod assembly;
pub mod decimal;
pub mod err;
pub mod front;
pub mod orchestrator;
pub mod parse;
pub mod register;
pub mod semantics;
pub mod text;

verus! {

/// The text of a path, where it has one: `path` is what asking the path for
/// its text gave. A path without a text is an `Unknown` error, raised at
/// `unknown_place()`.
pub fn stringify_path(path: Option<&str>) -> (r: LlccB<String>)
    ensures
        match r {
            B::X(p) => path matches Some(text) && p@ == text@,
            B::Y(e) => path is None && (e matches LlccError::Unknown { msg, loc } && msg@
                == "failed to get path"@ && loc == unknown_place()),
        },
{
    let p: LlccB<&str> = path.reshape("failed to get path");
    match p {
        B::X(p) => B::X(String::from_str(p)),
        B::Y(e) => B::Y(e),
    }
}

} // verus!
