//! The two-way result type of the pipeline, and its errors.

use crate::decimal::{decimal_text, push_decimal, push_signed, signed_text};
use crate::semantics::Ctx;
use vstd::pervasive::unreached;
use vstd::prelude::*;
use vstd::std_specs::convert::FromSpecImpl;
use vstd::string::StringExecFns;

verus! {

/// `String::push` of std appends the character: the text is then what it
/// was, with `ch` behind it.
pub assume_specification[ String::push ](string: &mut String, ch: char)
    ensures
        final(string)@ == old(string)@.push(ch),
;

/// A value of one of two kinds: `X` for the expected one, `Y` for the other.
#[derive(Debug, PartialEq, Eq)]
pub enum B<S, T> {
    X(S),
    Y(T),
}

/// What the pipeline's steps return: a value, or the error that stopped them.
pub type LlccB<S> = B<S, LlccError>;

/// Conversion between the shapes a two-way result can take, with a context
/// to draw on where one shape says less than the other.
pub trait ReShape<O, C> {
    fn reshape(self, ctx: C) -> O;
}

impl<T, E> ReShape<B<T, E>, ()> for Result<T, E> {
    fn reshape(self, _ctx: ()) -> (b: B<T, E>)
        ensures
            b == match self {
                Ok(t) => B::<T, E>::X(t),
                Err(e) => B::<T, E>::Y(e),
            },
    {
        match self {
            Ok(t) => B::X(t),
            Err(e) => B::Y(e),
        }
    }
}

impl<T, E: From<C>, C> ReShape<B<T, E>, C> for Option<T> {
    /// `Some` becomes `X`; `None` becomes `Y` with the error made from `ctx`.
    fn reshape(self, ctx: C) -> (b: B<T, E>)
        ensures
            match self {
                Some(t) => b == B::<T, E>::X(t),
                None => b matches B::Y(e) && call_ensures(E::from, (ctx,), e),
            },
    {
        match self {
            Some(t) => B::X(t),
            None => B::Y(E::from(ctx)),
        }
    }
}

impl<T, E> ReShape<Result<T, E>, ()> for B<T, E> {
    fn reshape(self, _ctx: ()) -> Result<T, E>
        returns
            match self {
                B::X(t) => Ok::<T, E>(t),
                B::Y(e) => Err::<T, E>(e),
            },
    {
        match self {
            B::X(t) => Ok(t),
            B::Y(e) => Err(e),
        }
    }
}

impl<T, E> ReShape<Option<T>, ()> for B<T, E> {
    fn reshape(self, _ctx: ()) -> Option<T>
        returns
            match self {
                B::X(t) => Some(t),
                B::Y(_) => None::<T>,
            },
    {
        match self {
            B::X(t) => Some(t),
            B::Y(_) => None,
        }
    }
}

/// A value that may hold another, which can be taken out where it is there.
pub trait Container: Sized {
    type T;

    /// Whether a value is held.
    spec fn filled(&self) -> bool;

    /// The value held, where one is.
    spec fn content(&self) -> Self::T;

    /// Takes the value out.
    fn unwrap(self) -> (t: Self::T)
        requires
            self.filled(),
        ensures
            t == self.content(),
    ;

    /// Takes the value out; `msg` says what the caller relied on.
    fn expect(self, msg: &str) -> (t: Self::T)
        requires
            self.filled(),
        ensures
            t == self.content(),
    ;
}

impl<T, E> Container for B<T, E> {
    type T = T;

    open spec fn filled(&self) -> bool {
        self is X
    }

    open spec fn content(&self) -> T {
        self->X_0
    }

    fn unwrap(self) -> (t: T) {
        match self {
            B::X(t) => t,
            B::Y(_) => unreached(),
        }
    }

    fn expect(self, _msg: &str) -> (t: T) {
        match self {
            B::X(t) => t,
            B::Y(_) => unreached(),
        }
    }
}

/// Why a numeral could not be read.
#[derive(Debug, Clone, Copy, PartialEq, Eq, Structural)]
pub enum NumeralFault {
    /// No digit stood where the numeral was expected.
    Empty,
    /// The digits denote a value above `i32::MAX`.
    Overflow,
}

/// A place in source text: a file, and a line and a column in it.
#[derive(Debug, Clone, Copy, PartialEq, Eq)]
pub struct Place {
    pub file: &'static str,
    pub line: u32,
    pub column: u32,
}

impl Place {
    /// The place as it is written: the file, the line and the column, with
    /// a colon between each two.
    pub open spec fn text(self) -> Seq<char> {
        self.file@ + ":"@ + decimal_text(self.line as nat) + ":"@ + decimal_text(
            self.column as nat,
        )
    }

    /// The place at `line` and `column` of `file`.
    pub fn new(file: &'static str, line: u32, column: u32) -> (place: Self)
        ensures
            place == (Place { file, line, column }),
    {
        Place { file, line, column }
    }

    /// The place as it is written.
    pub fn to_string(&self) -> (s: String)
        ensures
            s@ == self.text(),
    {
        let mut s = String::from_str(self.file);
        s.append(":");
        push_decimal(&mut s, self.line as u64);
        s.append(":");
        push_decimal(&mut s, self.column as u64);
        assert(s@ =~= self.text());
        s
    }
}

/// Everything that can go wrong between source text and a finished program.
/// Each error holds, as `loc`, the place in source text where it was raised.
#[derive(Debug, PartialEq, Eq)]
pub enum LlccError {
    /// A file could not be read or written, or a tool could not be run.
    Io { detail: String, loc: Place },
    /// A numeral of the source text is malformed.
    ParseSrcInt { fault: NumeralFault, loc: Place },
    /// A text names no register.
    Parse { loc: Place },
    /// A value does not fit the immediate field it was meant for.
    MismatchImmediateType { origin: i32, max_bit: u8, is_signed: bool, loc: Place },
    /// A character of the source text is neither a digit nor an operator.
    UnsupportedToken { found: char, loc: Place },
    /// A context did not carry what an operation needed from it.
    LackOfContext { context_role: &'static str, holder: &'static str, loc: Place },
    /// Any other failure, with its message.
    Unknown { msg: String, loc: Place },
}

/// The place at which an `Unknown` error is made from its message: the line and
/// the column of the expression in this file that makes the error.
#[verifier::allow_in_spec]
pub fn unknown_place() -> Place
    returns
        (Place { file: "src/err.rs", line: 401, column: 9 }),
{
    Place { file: "src/err.rs", line: 401, column: 9 }
}

impl LlccError {
    /// The error, raised at `loc`, for a value that does not fit an
    /// immediate field of `max_bit` bits with the given signedness.
    pub fn mismatch_imm(origin: i32, max_bit: u8, is_signed: bool, loc: Place) -> (e: Self)
        ensures
            e == (LlccError::MismatchImmediateType { origin, max_bit, is_signed, loc }),
    {
        LlccError::MismatchImmediateType { origin, max_bit, is_signed, loc }
    }

    /// The error, raised at `loc`, for a context that lacks what an
    /// operation needs from it: it names the role of the context `C` and, as
    /// `holder`, the type that plays it.
    pub fn lack_of_ctx<C: Ctx>(holder: &'static str, loc: Place) -> (e: Self)
        ensures
            e == (LlccError::LackOfContext { context_role: C::ROLE, holder, loc }),
    {
        LlccError::LackOfContext { context_role: C::ROLE, holder, loc }
    }

    /// The place where the error was raised.
    pub open spec fn place(self) -> Place {
        match self {
            LlccError::Io { loc, .. } => loc,
            LlccError::ParseSrcInt { loc, .. } => loc,
            LlccError::Parse { loc } => loc,
            LlccError::MismatchImmediateType { loc, .. } => loc,
            LlccError::UnsupportedToken { loc, .. } => loc,
            LlccError::LackOfContext { loc, .. } => loc,
            LlccError::Unknown { loc, .. } => loc,
        }
    }

    /// What went wrong, in words.
    pub open spec fn reason(self) -> Seq<char> {
        match self {
            LlccError::Io { detail, .. } => detail@,
            LlccError::ParseSrcInt { fault, .. } => match fault {
                NumeralFault::Empty => "cannot parse integer from empty string"@,
                NumeralFault::Overflow => "number too large to fit in target type"@,
            },
            LlccError::Parse { .. } => "Matching variant not found"@,
            LlccError::MismatchImmediateType { origin, max_bit, is_signed, .. } => signed_text(
                origin as int,
            ) + " is not of type "@ + decimal_text(max_bit as nat) + " bit "@ + (if is_signed {
                "signed"@
            } else {
                "unsigned"@
            }) + " int."@,
            LlccError::UnsupportedToken { found, .. } => "unexpected char `"@.push(found) + "`"@,
            LlccError::LackOfContext { context_role, holder, .. } => "context: `"@ + holder@
                + "` for "@ + context_role@ + " should take enough info."@,
            LlccError::Unknown { msg, .. } => msg@,
        }
    }

    /// What the error says to the user: what went wrong, and after it
    /// ` at: [`, the place where the error was raised, and `]`.
    pub open spec fn message(self) -> Seq<char> {
        self.reason() + " at: ["@ + self.place().text() + "]"@
    }

    /// The place where the error was raised.
    pub fn loc(&self) -> (loc: Place)
        ensures
            loc == self.place(),
    {
        match self {
            LlccError::Io { loc, .. } => *loc,
            LlccError::ParseSrcInt { loc, .. } => *loc,
            LlccError::Parse { loc } => *loc,
            LlccError::MismatchImmediateType { loc, .. } => *loc,
            LlccError::UnsupportedToken { loc, .. } => *loc,
            LlccError::LackOfContext { loc, .. } => *loc,
            LlccError::Unknown { loc, .. } => *loc,
        }
    }

    /// The message of the error, as a text of its own.
    pub fn to_string(&self) -> (s: String)
        ensures
            s@ == self.message(),
    {
        let mut s = String::new();
        match self {
            LlccError::Io { detail, .. } => {
                s.append(detail.as_str());
            },
            LlccError::ParseSrcInt { fault, .. } => match fault {
                NumeralFault::Empty => {
                    s.append("cannot parse integer from empty string");
                },
                NumeralFault::Overflow => {
                    s.append("number too large to fit in target type");
                },
            },
            LlccError::Parse { .. } => {
                s.append("Matching variant not found");
            },
            LlccError::MismatchImmediateType { origin, max_bit, is_signed, .. } => {
                push_signed(&mut s, *origin);
                s.append(" is not of type ");
                push_decimal(&mut s, *max_bit as u64);
                s.append(" bit ");
                if *is_signed {
                    s.append("signed");
                } else {
                    s.append("unsigned");
                }
                s.append(" int.");
            },
            LlccError::UnsupportedToken { found, .. } => {
                s.append("unexpected char `");
                s.push(*found);
                s.append("`");
            },
            LlccError::LackOfContext { context_role, holder, .. } => {
                s.append("context: `");
                s.append(holder);
                s.append("` for ");
                s.append(context_role);
                s.append(" should take enough info.");
            },
            LlccError::Unknown { msg, .. } => {
                s.append(msg.as_str());
            },
        }
        assert(s@ =~= self.reason());
        s.append(" at: [");
        s.append(self.loc().to_string().as_str());
        s.append("]");
        assert(s@ =~= self.message());
        s
    }
}

/// The message of an error is made of three parts that can be told apart:
/// what went wrong, then ` at: [`, then the place where the error was
/// raised, and `]` as its last character.
pub proof fn lemma_message_ends_with_place(e: LlccError)
    ensures
        e.message() == e.reason() + " at: ["@ + e.place().text() + "]"@,
        e.message().len() == e.reason().len() + 7 + e.place().text().len(),
        e.message().last() == ']',
        e.message().subrange(0, e.reason().len() as int) == e.reason(),
        e.message().subrange(e.reason().len() as int, e.reason().len() as int + 6) == " at: ["@,
        e.message().subrange(e.reason().len() as int + 6, e.message().len() as int - 1)
            == e.place().text(),
{
    reveal_strlit(" at: [");
    reveal_strlit("]");
    let n = e.reason().len() as int;
    assert(e.message().subrange(0, n) =~= e.reason());
    assert(e.message().subrange(n, n + 6) =~= " at: ["@);
    assert(e.message().subrange(n + 6, e.message().len() - 1) =~= e.place().text());
}

impl<'a> FromSpecImpl<&'a str> for LlccError {
    open spec fn obeys_from_spec() -> bool {
        false
    }

    open spec fn from_spec(v: &'a str) -> Self {
        arbitrary()
    }
}

impl<'a> From<&'a str> for LlccError {
    /// An `Unknown` error with `value` as its message, raised here.
    fn from(value: &'a str) -> (e: Self)
        ensures
            e matches LlccError::Unknown { msg, loc } && msg@ == value@ && loc == unknown_place(),
    {
        LlccError::Unknown { msg: String::from_str(value), loc: unknown_place() }
    }
}

} // verus!
