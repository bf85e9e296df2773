//! Instructions, the translation of an expression into them, and their
//! rendering as assembly text.

use crate::decimal::{
    all_digits, decimal_text, decimal_value, digit_run, is_digit, lemma_decimal_round_trip,
    lemma_decimal_text_digits, lemma_digit_run_bounds, lemma_digit_run_unique, push_decimal,
};
use crate::err::{LlccB, LlccError, NumeralFault, Place, B};
use crate::orchestrator::file_manage::Dest;
use crate::parse::Parser;
use crate::register::{fits, refusal_place, Operand, Register, RegisterOrImmediate};
use crate::text::{chars_of, joined};
use vstd::arithmetic::power2::lemma2_to64;
use vstd::prelude::*;
use vstd::std_specs::convert::FromSpecImpl;
use vstd::string::StringExecFns;

pub mod injective;

verus! {

/// syscall number of exit
pub const EXIT: u16 = 93;

/// The one name that a translated program declares global.
pub const START: [&'static str; 1] = ["_start"];

/// What turns a program into files, and where it puts them.
#[derive(Debug)]
pub struct Assembler {
    dest: Dest,
}

impl Assembler {
    /// The assembler that writes to `dest`.
    pub fn new(dest: Dest) -> (assembler: Self)
        ensures
            assembler.files() == dest,
    {
        Assembler { dest }
    }

    /// Where the assembler writes.
    pub closed spec fn files(&self) -> Dest {
        self.dest
    }

    /// Where the assembler writes.
    pub fn dest(&self) -> (dest: &Dest)
        ensures
            *dest == self.files(),
    {
        &self.dest
    }
}

/// The sections a program can be placed in.
#[derive(Debug, Clone, Copy, PartialEq, Eq, Structural)]
pub enum SectionKind {
    Text,
}

impl SectionKind {
    /// The section's name, as its directive writes it behind the dot.
    pub open spec fn name(self) -> Seq<char> {
        match self {
            SectionKind::Text => "text"@,
        }
    }
}

impl FromSpecImpl<SectionKind> for String {
    open spec fn obeys_from_spec() -> bool {
        false
    }

    open spec fn from_spec(val: SectionKind) -> Self {
        arbitrary()
    }
}

impl From<SectionKind> for String {
    /// The section's name.
    fn from(val: SectionKind) -> (s: Self)
        ensures
            s@ == val.name(),
    {
        match val {
            SectionKind::Text => String::from_str("text"),
        }
    }
}

/// One instruction or directive of a program.
#[derive(Debug, Clone, Copy, PartialEq, Eq)]
pub enum Instruction<'a> {
    Section(SectionKind),
    Global(&'a [&'a str]),
    Symbol(&'a str),
    Svc {
        /// this number is ignored on aarch64 linux
        syscall: u16,
    },
    Mov { target: Register, value: RegisterOrImmediate<12, false> },
    Add { target: Register, lhs: Register, rhs: RegisterOrImmediate<12, false> },
    Sub { target: Register, lhs: Register, rhs: RegisterOrImmediate<12, false> },
}

/// What an instruction is, with its names as character sequences and its
/// operands as values.
pub enum InstructionView {
    Section(SectionKind),
    Global(Seq<Seq<char>>),
    Symbol(Seq<char>),
    Svc { syscall: u16 },
    Mov { target: Register, value: Operand },
    Add { target: Register, lhs: Register, rhs: Operand },
    Sub { target: Register, lhs: Register, rhs: Operand },
}

impl<'a> View for Instruction<'a> {
    type V = InstructionView;

    open spec fn view(&self) -> InstructionView {
        match *self {
            Instruction::Section(kind) => InstructionView::Section(kind),
            Instruction::Global(names) => InstructionView::Global(
                names@.map_values(|name: &str| name@),
            ),
            Instruction::Symbol(name) => InstructionView::Symbol(name@),
            Instruction::Svc { syscall } => InstructionView::Svc { syscall },
            Instruction::Mov { target, value } => InstructionView::Mov { target, value: value@ },
            Instruction::Add { target, lhs, rhs } => InstructionView::Add {
                target,
                lhs,
                rhs: rhs@,
            },
            Instruction::Sub { target, lhs, rhs } => InstructionView::Sub {
                target,
                lhs,
                rhs: rhs@,
            },
        }
    }
}

impl InstructionView {
    /// The instruction as assembly text writes it, without the end of line.
    pub open spec fn text(self) -> Seq<char> {
        match self {
            InstructionView::Section(kind) => "."@ + kind.name(),
            InstructionView::Global(names) => ".global "@ + joined(names, " "@),
            InstructionView::Symbol(name) => name + ":"@,
            InstructionView::Svc { syscall } => "svc #"@ + decimal_text(syscall as nat),
            InstructionView::Mov { target, value } => "mov "@ + target.mnemonic() + ", "@
                + value.text(),
            InstructionView::Add { target, lhs, rhs } => "add "@ + target.mnemonic() + ", "@
                + lhs.mnemonic() + ", "@ + rhs.text(),
            InstructionView::Sub { target, lhs, rhs } => "sub "@ + target.mnemonic() + ", "@
                + lhs.mnemonic() + ", "@ + rhs.text(),
        }
    }

    /// The instruction's line of assembly text, end of line included.
    pub open spec fn line(self) -> Seq<char> {
        self.text().push('\n')
    }
}

/// The assembly text of `program`: the line of each instruction, in order.
pub open spec fn rendered(program: Seq<InstructionView>) -> Seq<char>
    decreases program.len(),
{
    if program.len() == 0 {
        Seq::empty()
    } else {
        rendered(program.drop_last()) + program.last().line()
    }
}

/// The names of `names`, joined by single spaces.
fn join_names(names: &[&str]) -> (s: String)
    ensures
        s@ == joined(names@.map_values(|name: &str| name@), " "@),
{
    let ghost views = names@.map_values(|name: &str| name@);
    let mut s = String::new();
    let mut i: usize = 0;
    while i < names.len()
        invariant
            i <= names.len(),
            views == names@.map_values(|name: &str| name@),
            s@ == joined(views.take(i as int), " "@),
        decreases names.len() - i,
    {
        if i > 0 {
            s.append(" ");
        }
        s.append(names[i]);
        proof {
            assert(views.take(i + 1).drop_last() =~= views.take(i as int));
            assert(views.take(i + 1).last() == names[i as int]@);
            assert(s@ =~= joined(views.take(i + 1), " "@));
        }
        i = i + 1;
    }
    assert(views.take(i as int) =~= views);
    s
}

impl<'a> FromSpecImpl<Instruction<'a>> for String {
    open spec fn obeys_from_spec() -> bool {
        false
    }

    open spec fn from_spec(val: Instruction<'a>) -> Self {
        arbitrary()
    }
}

impl<'a> From<Instruction<'a>> for String {
    /// The instruction's line of assembly text.
    fn from(val: Instruction<'a>) -> (s: Self)
        ensures
            s@ == val@.line(),
    {
        let mut s = String::new();
        match val {
            Instruction::Section(section_kind) => {
                let kind: String = String::from(section_kind);
                s.append(".");
                s.append(kind.as_str());
            },
            Instruction::Global(items) => {
                let items = join_names(items);
                s.append(".global ");
                s.append(items.as_str());
            },
            Instruction::Symbol(name) => {
                s.append(name);
                s.append(":");
            },
            Instruction::Svc { syscall } => {
                s.append("svc #");
                push_decimal(&mut s, syscall as u64);
            },
            Instruction::Mov { target, value } => {
                s.append("mov ");
                s.append(target.to_string().as_str());
                s.append(", ");
                s.append(value.to_string().as_str());
            },
            Instruction::Add { target, lhs, rhs } => {
                s.append("add ");
                s.append(target.to_string().as_str());
                s.append(", ");
                s.append(lhs.to_string().as_str());
                s.append(", ");
                s.append(rhs.to_string().as_str());
            },
            Instruction::Sub { target, lhs, rhs } => {
                s.append("sub ");
                s.append(target.to_string().as_str());
                s.append(", ");
                s.append(lhs.to_string().as_str());
                s.append(", ");
                s.append(rhs.to_string().as_str());
            },
        }
        assert(s@ =~= val@.text());
        s.push('\n');
        s
    }
}

/// A program that can be read as assembly text.
#[derive(Debug, PartialEq, Eq)]
pub struct ReadableAsm<'a>(pub Vec<Instruction<'a>>);

impl<'a> View for ReadableAsm<'a> {
    type V = Seq<InstructionView>;

    open spec fn view(&self) -> Seq<InstructionView> {
        self.0@.map_values(|inst: Instruction<'a>| inst@)
    }
}

impl<'a> ReadableAsm<'a> {
    /// The program made of `inst_list`, in that order.
    pub fn from_instructions(inst_list: Vec<Instruction<'a>>) -> (program: Self)
        ensures
            program.0 == inst_list,
            program@ == inst_list@.map_values(|inst: Instruction<'a>| inst@),
    {
        Self(inst_list)
    }
}

impl<'a> FromSpecImpl<ReadableAsm<'a>> for String {
    open spec fn obeys_from_spec() -> bool {
        false
    }

    open spec fn from_spec(val: ReadableAsm<'a>) -> Self {
        arbitrary()
    }
}

impl<'a> From<ReadableAsm<'a>> for String {
    /// The program's assembly text.
    fn from(val: ReadableAsm<'a>) -> (s: Self)
        ensures
            s@ == rendered(val@),
    {
        let mut s = String::new();
        let mut i: usize = 0;
        while i < val.0.len()
            invariant
                i <= val.0.len(),
                s@ == rendered(val@.take(i as int)),
            decreases val.0.len() - i,
        {
            let line: String = String::from(val.0[i]);
            s.append(line.as_str());
            proof {
                assert(val@.take(i + 1).drop_last() =~= val@.take(i as int));
                assert(val@.take(i + 1).last() == val.0[i as int]@);
            }
            i = i + 1;
        }
        assert(val@.take(i as int) =~= val@);
        s
    }
}

/// The place at which a malformed numeral is refused: the line and
/// the column of the expression in this file that makes the error.
#[verifier::allow_in_spec]
pub fn numeral_place() -> Place
    returns
        (Place { file: "src/assembly.rs", line: 451, column: 10 }),
{
    Place { file: "src/assembly.rs", line: 451, column: 10 }
}

/// The place at which a character that is no sign is refused: the line and
/// the column of the expression in this file that makes the error.
#[verifier::allow_in_spec]
pub fn token_place() -> Place
    returns
        (Place { file: "src/assembly.rs", line: 708, column: 25 }),
{
    Place { file: "src/assembly.rs", line: 708, column: 25 }
}

/// The number that the digits at the front of `s` denote, or why they
/// denote none: no digit stands there, or the number is above `i32::MAX`.
pub open spec fn numeral(s: Seq<char>) -> Result<int, NumeralFault> {
    let digits = s.take(digit_run(s) as int);
    if digits.len() == 0 {
        Err(NumeralFault::Empty)
    } else if decimal_value(digits) > i32::MAX {
        Err(NumeralFault::Overflow)
    } else {
        Ok(decimal_value(digits) as int)
    }
}

/// What is left of `s` behind the digits at its front.
pub open spec fn after_numeral(s: Seq<char>) -> Seq<char> {
    s.skip(digit_run(s) as int)
}

/// Reads the numeral at the cursor and moves the cursor behind its digits.
///
/// Returns the number where there is at least one digit and the number is at
/// most `i32::MAX`, and `LlccError::ParseSrcInt` with the fault, raised at
/// `numeral_place()`, where not. The cursor ends up at the first character
/// that is no digit either way.
pub fn parse_number(chars: &mut Parser<'_, char>) -> (r: LlccB<i32>)
    ensures
        final(chars)@ == after_numeral(old(chars)@),
        match r {
            B::X(n) => numeral(old(chars)@) == Ok::<int, NumeralFault>(n as int),
            B::Y(e) => numeral(old(chars)@) matches Err(fault) && e == (LlccError::ParseSrcInt {
                fault,
                loc: numeral_place(),
            }),
        },
{
    let ghost text = chars@;
    let ghost mut run: int = 0;
    let mut value: u64 = 0;
    let mut seen = false;
    let mut overflow = false;
    loop
        invariant
            0 <= run <= text.len(),
            chars@ == text.skip(run),
            all_digits(text.take(run)),
            seen == (run > 0),
            value <= i32::MAX,
            !overflow ==> value == decimal_value(text.take(run)),
            overflow ==> decimal_value(text.take(run)) > i32::MAX,
        ensures
            run == digit_run(text),
            chars@ == text.skip(run),
        decreases text.len() - run,
    {
        let digit: u64 = match chars.peek() {
            Some(c) if '0' <= c && c <= '9' => (c as u32 - '0' as u32) as u64,
            _ => {
                proof {
                    lemma_digit_run_unique(text, run);
                }
                break ;
            },
        };
        chars.next();
        proof {
            assert(text.skip(run)[0] == text[run]);
            assert(text.skip(run).skip(1) =~= text.skip(run + 1));
            assert(text.take(run + 1).drop_last() =~= text.take(run));
            assert(text.take(run + 1).last() == text[run]);
            assert forall|i: int| 0 <= i < run + 1 implies is_digit(
                #[trigger] text.take(run + 1)[i],
            ) by {
                if i < run {
                    assert(text.take(run + 1)[i] == text.take(run)[i]);
                }
            }
            run = run + 1;
        }
        seen = true;
        if !overflow {
            let next = value * 10 + digit;
            if next > i32::MAX as u64 {
                overflow = true;
            } else {
                value = next;
            }
        }
    }
    let fault = if !seen {
        NumeralFault::Empty
    } else if overflow {
        NumeralFault::Overflow
    } else {
        return B::X(value as i32);
    };
    B::Y(LlccError::ParseSrcInt { fault, loc: numeral_place() })
}

/// Reading the decimal notation of a number that is at most `i32::MAX`,
/// followed by a character `stop` that is no digit and by anything, gives
/// the number, and leaves what begins with `stop`.
pub proof fn lemma_numeral_round_trip(n: nat, stop: char, rest: Seq<char>)
    requires
        n <= i32::MAX,
        !is_digit(stop),
    ensures
        numeral(decimal_text(n) + seq![stop] + rest) == Ok::<int, NumeralFault>(n as int),
        after_numeral(decimal_text(n) + seq![stop] + rest) == seq![stop] + rest,
{
    let digits = decimal_text(n);
    let s = digits + seq![stop] + rest;
    let k = digits.len() as int;
    lemma_decimal_text_digits(n);
    lemma_decimal_round_trip(n);
    assert(s.take(k) =~= digits);
    assert(s[k] == stop);
    lemma_digit_run_unique(s, k);
    assert(s.skip(k) =~= seq![stop] + rest);
}

/// Reading the decimal notation of a number that is at most `i32::MAX`,
/// with nothing behind it, gives the number and leaves nothing.
pub proof fn lemma_numeral_round_trip_at_end(n: nat)
    requires
        n <= i32::MAX,
    ensures
        numeral(decimal_text(n)) == Ok::<int, NumeralFault>(n as int),
        after_numeral(decimal_text(n)) == Seq::<char>::empty(),
{
    let digits = decimal_text(n);
    let k = digits.len() as int;
    lemma_decimal_text_digits(n);
    lemma_decimal_round_trip(n);
    assert(digits.take(k) =~= digits);
    lemma_digit_run_unique(digits, k);
    assert(digits.skip(k) =~= Seq::<char>::empty());
}

/// The register that holds the running result of the expression.
pub open spec fn accumulator() -> Register {
    Register::X0
}

/// The instructions that stand before the translated expression.
pub open spec fn prologue() -> Seq<InstructionView> {
    seq![
        InstructionView::Section(SectionKind::Text),
        InstructionView::Global(seq!["_start"@]),
        InstructionView::Symbol("_start"@),
    ]
}

/// The instructions that end the program: the exit call.
pub open spec fn epilogue() -> Seq<InstructionView> {
    seq![
        InstructionView::Mov { target: Register::X8, value: Operand::Immediate(EXIT as int) },
        InstructionView::Svc { syscall: EXIT },
    ]
}

/// The error for a number that the immediate field of a move, an add or a
/// subtract cannot hold.
pub open spec fn too_wide(value: int) -> LlccError {
    LlccError::MismatchImmediateType {
        origin: value as i32,
        max_bit: 12,
        is_signed: false,
        loc: refusal_place(),
    }
}

/// The instruction for one term: an add for `+`, a subtract for any other
/// sign, of `value` to the accumulator.
pub open spec fn term(sign: char, value: int) -> InstructionView {
    if sign == '+' {
        InstructionView::Add {
            target: accumulator(),
            lhs: accumulator(),
            rhs: Operand::Immediate(value),
        }
    } else {
        InstructionView::Sub {
            target: accumulator(),
            lhs: accumulator(),
            rhs: Operand::Immediate(value),
        }
    }
}

/// `done` followed by what `more` adds, or the error of `more`.
pub open spec fn followed_by(
    done: Seq<InstructionView>,
    more: Result<Seq<InstructionView>, LlccError>,
) -> Result<Seq<InstructionView>, LlccError> {
    match more {
        Ok(tail) => Ok(done + tail),
        Err(e) => Err(e),
    }
}

/// The instructions for the terms that `s` holds: for each, one sign and
/// one numeral, up to the end of `s`; or the first error met on the way.
pub open spec fn terms(s: Seq<char>) -> Result<Seq<InstructionView>, LlccError>
    decreases s.len(),
    via terms_decreases
{
    if s.len() == 0 {
        Ok(Seq::empty())
    } else if s[0] == '+' || s[0] == '-' {
        match numeral(s.skip(1)) {
            Err(fault) => Err(LlccError::ParseSrcInt { fault, loc: numeral_place() }),
            Ok(value) => if !fits(value, 12, false) {
                Err(too_wide(value))
            } else {
                followed_by(seq![term(s[0], value)], terms(after_numeral(s.skip(1))))
            },
        }
    } else {
        Err(LlccError::UnsupportedToken { found: s[0], loc: token_place() })
    }
}

#[via_fn]
proof fn terms_decreases(s: Seq<char>) {
    if s.len() > 0 {
        lemma_digit_run_bounds(s.skip(1));
    }
}

/// The program for the expression `src`: the prologue, the move of the first
/// number into the accumulator, one instruction for each term, and the
/// epilogue; or the first error met while reading `src` from its start.
pub open spec fn translation(src: Seq<char>) -> Result<Seq<InstructionView>, LlccError> {
    match numeral(src) {
        Err(fault) => Err(LlccError::ParseSrcInt { fault, loc: numeral_place() }),
        Ok(first) => if !fits(first, 12, false) {
            Err(too_wide(first))
        } else {
            followed_by(
                prologue().push(
                    InstructionView::Mov { target: accumulator(), value: Operand::Immediate(first) },
                ),
                followed_by_end(terms(after_numeral(src))),
            )
        },
    }
}

/// What `body` gives with the epilogue behind it, or the error of `body`.
pub open spec fn followed_by_end(body: Result<Seq<InstructionView>, LlccError>) -> Result<
    Seq<InstructionView>,
    LlccError,
> {
    match body {
        Ok(b) => Ok(b + epilogue()),
        Err(e) => Err(e),
    }
}

/// Whether `outcome` is what translating `src` gives: the program that
/// `translation` describes, or its error.
pub open spec fn translates(src: Seq<char>, outcome: LlccB<ReadableAsm<'static>>) -> bool {
    match outcome {
        B::X(program) => translation(src) == Ok::<Seq<InstructionView>, LlccError>(program@),
        B::Y(e) => translation(src) == Err::<Seq<InstructionView>, LlccError>(e),
    }
}

/// Translation has one outcome: whatever translating a text gives, doing it
/// again gives the same instructions in the same order, or the same error.
pub proof fn lemma_translation_deterministic(
    src: Seq<char>,
    first: LlccB<ReadableAsm<'static>>,
    second: LlccB<ReadableAsm<'static>>,
)
    requires
        translates(src, first),
        translates(src, second),
    ensures
        match (first, second) {
            (B::X(p), B::X(q)) => p@ == q@,
            (B::Y(e), B::Y(f)) => e == f,
            _ => false,
        },
{
}

/// Translates the expression `src` into a program.
///
/// `src` is a numeral followed by any number of terms, each a `+` or a `-`
/// and a numeral. The result is the program that `translation` describes,
/// or its error: `ParseSrcInt` where a numeral is missing or above
/// `i32::MAX`, `MismatchImmediateType` where a number does not fit 12 bits
/// unsigned, `UnsupportedToken` where another character stands in place of a
/// sign.
pub fn asm_str(src: &str) -> (r: LlccB<ReadableAsm<'static>>)
    ensures
        translates(src@, r),
{
    let text = chars_of(src);
    let mut chars = Parser::new(text.as_slice());
    let mut inst_list: Vec<Instruction<'static>> = Vec::new();
    inst_list.push(Instruction::Section(SectionKind::Text));
    inst_list.push(Instruction::Global(&START));
    inst_list.push(Instruction::Symbol("_start"));
    assert(inst_list@.map_values(|inst: Instruction<'static>| inst@) =~= prologue()) by {
        assert(START@.map_values(|name: &str| name@) =~= seq!["_start"@]);
    }

    let first_num = match parse_number(&mut chars) {
        B::X(n) => n,
        B::Y(e) => {
            return B::Y(e);
        },
    };
    let first = match RegisterOrImmediate::<12, false>::try_from(first_num) {
        Ok(operand) => operand,
        Err(e) => {
            return B::Y(e);
        },
    };
    inst_list.push(Instruction::Mov { target: Register::X0, value: first });
    let ghost head = prologue().push(
        InstructionView::Mov { target: accumulator(), value: Operand::Immediate(first_num as int) },
    );
    let ghost tail = after_numeral(src@);
    let ghost mut body: Seq<InstructionView> = Seq::empty();
    assert(inst_list@.map_values(|inst: Instruction<'static>| inst@) =~= head + body);
    assert(terms(tail) == followed_by(body, terms(chars@))) by {
        assert(forall|t: Seq<InstructionView>| Seq::<InstructionView>::empty() + t =~= t);
    }

    assert(translation(src@) == followed_by(head, followed_by_end(terms(tail))));
    loop
        invariant
            translation(src@) == followed_by(head, followed_by_end(terms(tail))),
            inst_list@.map_values(|inst: Instruction<'static>| inst@) == head + body,
            terms(tail) == followed_by(body, terms(chars@)),
        ensures
            inst_list@.map_values(|inst: Instruction<'static>| inst@) == head + body,
            terms(tail) == Ok::<Seq<InstructionView>, LlccError>(body),
        decreases chars@.len(),
    {
        let ghost before = chars@;
        let c = match chars.next() {
            Some(c) => c,
            None => {
                assert(body + Seq::<InstructionView>::empty() =~= body);
                break ;
            },
        };
        if c != '+' && c != '-' {
            return B::Y(LlccError::UnsupportedToken { found: c, loc: token_place() });
        }
        let num = match parse_number(&mut chars) {
            B::X(n) => n,
            B::Y(e) => {
                return B::Y(e);
            },
        };
        let rhs = match RegisterOrImmediate::<12, false>::try_from(num) {
            Ok(operand) => operand,
            Err(e) => {
                return B::Y(e);
            },
        };
        let ghost listed = inst_list@;
        if c == '+' {
            inst_list.push(Instruction::Add { target: Register::X0, lhs: Register::X0, rhs });
        } else {
            inst_list.push(Instruction::Sub { target: Register::X0, lhs: Register::X0, rhs });
        }
        proof {
            lemma_digit_run_bounds(before.skip(1));
            let step = term(c, num as int);
            assert(terms(before) == followed_by(seq![step], terms(chars@)));
            assert forall|t: Seq<InstructionView>| body + (seq![step] + t) == #[trigger] (
            body.push(step) + t) by {
                assert(body + (seq![step] + t) =~= body.push(step) + t);
            }
            assert(inst_list@ == listed.push(inst_list@.last()));
            assert(inst_list@.last()@ == step);
            assert(inst_list@.map_values(|inst: Instruction<'static>| inst@) =~= listed.map_values(
                |inst: Instruction<'static>| inst@,
            ).push(step));
            assert(head + body.push(step) =~= (head + body).push(step));
            body = body.push(step);
        }
    }

    let exit = match RegisterOrImmediate::<12, false>::try_from(EXIT as i32) {
        Ok(operand) => operand,
        Err(e) => {
            proof {
                lemma2_to64();
            }
            return B::Y(e);
        },
    };
    inst_list.push(Instruction::Mov { target: Register::X8, value: exit });
    inst_list.push(Instruction::Svc { syscall: EXIT });
    proof {
        assert(exit@ == Operand::Immediate(EXIT as int));
        let views = inst_list@.map_values(|inst: Instruction<'static>| inst@);
        assert(views =~= (head + body) + epilogue());
        assert(views =~= head + (body + epilogue()));
    }
    B::X(ReadableAsm::from_instructions(inst_list))
}

} // verus!
