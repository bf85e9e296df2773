//! The parts of C that can be read.
//!
//! ```text
//! <expr>   ::= <number> { ("+" | "-") <number> }
//! ```

use vstd::prelude::*;

verus! {

#[derive(Debug, Clone, Copy, PartialEq, Eq, Structural)]
pub enum C {
    Arithmetic,
}

} // verus!
