//! source code → token stream → Ast

use vstd::prelude::*;

pub mod syntax;

verus! {

/// A cursor over the items of a source: what it has passed is consumed,
/// what lies ahead remains.
pub struct Parser<'a, T> {
    pos: usize,
    src: &'a [T],
}

impl<'a, T> View for Parser<'a, T> {
    type V = Seq<T>;

    /// The items that remain, the next one first.
    closed spec fn view(&self) -> Seq<T> {
        self.src@.skip(self.pos as int)
    }
}

impl<'a, T> Parser<'a, T> {
    #[verifier::type_invariant]
    spec fn in_bounds(self) -> bool {
        self.pos <= self.src@.len()
    }
}

impl<'a, T: Copy> Parser<'a, T> {
    /// A cursor at the start of `src`.
    pub fn new(src: &'a [T]) -> (p: Self)
        ensures
            p@ == src@,
    {
        Parser { pos: 0, src }
    }

    /// The next item, which stays where it is.
    pub fn peek(&self) -> (item: Option<T>)
        ensures
            item == if self@.len() > 0 {
                Some(self@[0])
            } else {
                None
            },
    {
        proof {
            use_type_invariant(self);
        }
        if self.pos < self.src.len() {
            Some(self.src[self.pos])
        } else {
            None
        }
    }

    /// The next item, which the cursor then has passed.
    pub fn next(&mut self) -> (item: Option<T>)
        ensures
            item == if old(self)@.len() > 0 {
                Some(old(self)@[0])
            } else {
                None
            },
            final(self)@ == if old(self)@.len() > 0 {
                old(self)@.skip(1)
            } else {
                old(self)@
            },
    {
        proof {
            use_type_invariant(&*self);
        }
        if self.pos < self.src.len() {
            let item = self.src[self.pos];
            self.pos = self.pos + 1;
            assert(self.src@.skip(self.pos as int) =~= old(self)@.skip(1));
            Some(item)
        } else {
            None
        }
    }
}

impl<'a> Parser<'a, char> {
    /// Ends the parse; what remains is dropped.
    pub fn parse(self) {
    }
}

/// `Ast`: the definition of a grammar's structure.
pub struct Ast {}

/// `SyntaxTree`: the structure of one program, a grammar laid out as a tree.
pub struct SyntaxTree {}

} // verus!
