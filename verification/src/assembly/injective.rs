//! Rendering loses nothing: two well-formed programs with the same assembly
//! text are the same program.

use crate::assembly::{after_numeral, rendered, terms, translation, InstructionView};
use crate::decimal::{
    decimal_text, is_digit, lemma_decimal_text_digits, lemma_decimal_text_injective,
    lemma_digit_run_bounds,
};
use crate::register::{Operand, Register};
use crate::text::joined;
use vstd::prelude::*;

verus! {

/// Whether `c` does not occur in `s`.
pub open spec fn free_of(s: Seq<char>, c: char) -> bool {
    forall|i: int| 0 <= i < s.len() ==> s[i] != c
}

/// Whether `s` can stand as a name in a program: it is not empty and holds
/// neither a space nor an end of line.
pub open spec fn is_name(s: Seq<char>) -> bool {
    s.len() > 0 && free_of(s, ' ') && free_of(s, '\n')
}

/// Whether the names that `inst` holds can stand as names.
pub open spec fn well_formed_instruction(inst: InstructionView) -> bool {
    match inst {
        InstructionView::Global(names) => forall|i: int|
            0 <= i < names.len() ==> is_name(#[trigger] names[i]),
        InstructionView::Symbol(name) => is_name(name),
        _ => true,
    }
}

/// Whether every instruction of `program` is well formed.
pub open spec fn well_formed(program: Seq<InstructionView>) -> bool {
    forall|i: int| 0 <= i < program.len() ==> well_formed_instruction(#[trigger] program[i])
}

/// Whether `c` is a digit or a small ASCII letter.
pub open spec fn is_plain(c: char) -> bool {
    is_digit(c) || 'a' <= c <= 'z'
}

/// Two texts that are each cut at the first `sep` in them are equal only if
/// both parts are.
pub proof fn lemma_split_at_first(
    a1: Seq<char>,
    b1: Seq<char>,
    a2: Seq<char>,
    b2: Seq<char>,
    sep: char,
)
    requires
        free_of(a1, sep),
        free_of(a2, sep),
        a1.push(sep) + b1 == a2.push(sep) + b2,
    ensures
        a1 == a2,
        b1 == b2,
{
    let l = a1.push(sep) + b1;
    let r = a2.push(sep) + b2;
    if a1.len() < a2.len() {
        assert(l[a1.len() as int] == sep);
        assert(r[a1.len() as int] == a2[a1.len() as int]);
    }
    if a2.len() < a1.len() {
        assert(r[a2.len() as int] == sep);
        assert(l[a2.len() as int] == a1[a2.len() as int]);
    }
    assert(l.len() == r.len());
    assert forall|i: int| 0 <= i < a1.len() implies a1[i] == a2[i] by {
        assert(l[i] == a1[i]);
        assert(r[i] == a2[i]);
    }
    assert(a1 =~= a2);
    assert forall|i: int| 0 <= i < b1.len() implies b1[i] == b2[i] by {
        assert(l[a1.len() + 1 + i] == b1[i]);
        assert(r[a2.len() + 1 + i] == b2[i]);
    }
    assert(b1 =~= b2);
}

/// Two texts that are each cut at the last `sep` in them are equal only if
/// both parts are.
pub proof fn lemma_split_at_last(
    a1: Seq<char>,
    b1: Seq<char>,
    a2: Seq<char>,
    b2: Seq<char>,
    sep: char,
)
    requires
        free_of(b1, sep),
        free_of(b2, sep),
        a1.push(sep) + b1 == a2.push(sep) + b2,
    ensures
        a1 == a2,
        b1 == b2,
{
    let l = a1.push(sep) + b1;
    let r = a2.push(sep) + b2;
    assert(l.len() == r.len());
    if b1.len() < b2.len() {
        assert(l[a1.len() as int] == sep);
        assert(r[a1.len() as int] == b2[a1.len() - a2.len() - 1]);
    }
    if b2.len() < b1.len() {
        assert(r[a2.len() as int] == sep);
        assert(l[a2.len() as int] == b1[a2.len() - a1.len() - 1]);
    }
    assert forall|i: int| 0 <= i < a1.len() implies a1[i] == a2[i] by {
        assert(l[i] == a1[i]);
        assert(r[i] == a2[i]);
    }
    assert(a1 =~= a2);
    assert forall|i: int| 0 <= i < b1.len() implies b1[i] == b2[i] by {
        assert(l[a1.len() + 1 + i] == b1[i]);
        assert(r[a2.len() + 1 + i] == b2[i]);
    }
    assert(b1 =~= b2);
}

/// A mnemonic holds digits and small letters only.
pub proof fn lemma_mnemonic_plain(reg: Register)
    ensures
        forall|i: int| 0 <= i < reg.mnemonic().len() ==> is_plain(#[trigger] reg.mnemonic()[i]),
{
    reg.lemma_mnemonic_shape();
}

/// An operand's text holds digits, small letters, `#` and `-` only.
pub proof fn lemma_operand_chars(operand: Operand)
    ensures
        operand.text().len() > 0,
        forall|i: int|
            0 <= i < operand.text().len() ==> {
                let c = #[trigger] operand.text()[i];
                is_plain(c) || c == '#' || c == '-'
            },
{
    match operand {
        Operand::Register(reg) => {
            lemma_mnemonic_plain(reg);
            reg.lemma_mnemonic_shape();
        },
        Operand::Immediate(v) => {
            let magnitude = if v < 0 {
                (-v) as nat
            } else {
                v as nat
            };
            lemma_decimal_text_digits(magnitude);
            let digits = decimal_text(magnitude);
            let t = operand.text();
            assert forall|i: int| 0 <= i < t.len() implies {
                let c = #[trigger] t[i];
                is_plain(c) || c == '#' || c == '-'
            } by {
                if v < 0 {
                    if i >= 2 {
                        assert(t[i] == digits[i - 2]);
                    }
                } else {
                    if i >= 1 {
                        assert(t[i] == digits[i - 1]);
                    }
                }
            }
        },
    }
}

/// What joining names gives holds none of a character that neither the
/// names nor the separator hold.
pub proof fn lemma_joined_free_of(names: Seq<Seq<char>>, sep: Seq<char>, c: char)
    requires
        forall|i: int| 0 <= i < names.len() ==> free_of(#[trigger] names[i], c),
        free_of(sep, c),
    ensures
        free_of(joined(names, sep), c),
    decreases names.len(),
{
    if names.len() >= 2 {
        lemma_joined_free_of(names.drop_last(), sep, c);
    }
}

/// What joining one name or more gives is not empty, where no name is.
pub proof fn lemma_joined_not_empty(names: Seq<Seq<char>>, sep: Seq<char>)
    requires
        names.len() > 0,
        names.last().len() > 0,
    ensures
        joined(names, sep).len() > 0,
{
}

/// Names that are joined by single spaces can be told apart again.
pub proof fn lemma_joined_injective(a: Seq<Seq<char>>, b: Seq<Seq<char>>)
    requires
        forall|i: int| 0 <= i < a.len() ==> is_name(#[trigger] a[i]),
        forall|i: int| 0 <= i < b.len() ==> is_name(#[trigger] b[i]),
        joined(a, seq![' ']) == joined(b, seq![' ']),
    ensures
        a == b,
    decreases a.len(),
{
    let sep = seq![' '];
    if a.len() == 0 {
        if b.len() > 0 {
            lemma_joined_not_empty(b, sep);
        }
        assert(a =~= b);
    } else if b.len() == 0 {
        lemma_joined_not_empty(a, sep);
    } else if a.len() == 1 {
        if b.len() >= 2 {
            let text = joined(b, sep);
            let front = joined(b.drop_last(), sep);
            assert(text[front.len() as int] == ' ');
        }
        assert(a =~= b);
    } else if b.len() == 1 {
        let text = joined(a, sep);
        let front = joined(a.drop_last(), sep);
        assert(text[front.len() as int] == ' ');
    } else {
        let fa = joined(a.drop_last(), sep);
        let fb = joined(b.drop_last(), sep);
        assert(joined(a, sep) =~= fa.push(' ') + a.last());
        assert(joined(b, sep) =~= fb.push(' ') + b.last());
        lemma_split_at_last(fa, a.last(), fb, b.last(), ' ');
        lemma_joined_injective(a.drop_last(), b.drop_last());
        assert(a =~= a.drop_last().push(a.last()));
        assert(b =~= b.drop_last().push(b.last()));
    }
}

/// The text of a well-formed instruction holds no end of line.
pub proof fn lemma_text_one_line(inst: InstructionView)
    requires
        well_formed_instruction(inst),
    ensures
        free_of(inst.text(), '\n'),
{
    reveal_strlit(".");
    reveal_strlit("text");
    reveal_strlit(".global ");
    reveal_strlit(" ");
    reveal_strlit(":");
    reveal_strlit("svc #");
    reveal_strlit("mov ");
    reveal_strlit("add ");
    reveal_strlit("sub ");
    reveal_strlit(", ");
    let t = inst.text();
    match inst {
        InstructionView::Section(kind) => {},
        InstructionView::Global(names) => {
            lemma_joined_free_of(names, " "@, '\n');
        },
        InstructionView::Symbol(name) => {},
        InstructionView::Svc { syscall } => {
            lemma_decimal_text_digits(syscall as nat);
        },
        InstructionView::Mov { target, value } => {
            lemma_mnemonic_plain(target);
            lemma_operand_chars(value);
        },
        InstructionView::Add { target, lhs, rhs } => {
            lemma_mnemonic_plain(target);
            lemma_mnemonic_plain(lhs);
            lemma_operand_chars(rhs);
        },
        InstructionView::Sub { target, lhs, rhs } => {
            lemma_mnemonic_plain(target);
            lemma_mnemonic_plain(lhs);
            lemma_operand_chars(rhs);
        },
    }
}

/// How the text of an instruction begins and ends, by the kind of the
/// instruction: what tells the kinds apart.
pub proof fn lemma_text_marks(inst: InstructionView)
    requires
        well_formed_instruction(inst),
    ensures
        ({
            let t = inst.text();
            match inst {
                InstructionView::Section(_) => t.len() == 5 && t[0] == '.' && t[4] == 't',
                InstructionView::Global(_) => t.len() >= 8 && t[0] == '.' && t[7] == ' ',
                InstructionView::Symbol(_) => t.len() >= 2 && t.last() == ':' && free_of(t, ' '),
                InstructionView::Svc { .. } => t.len() >= 6 && t[0] == 's' && t[1] == 'v' && t[3]
                    == ' ',
                InstructionView::Mov { .. } => t.len() >= 4 && t[0] == 'm' && t[3] == ' ',
                InstructionView::Add { .. } => t.len() >= 4 && t[0] == 'a' && t[3] == ' ',
                InstructionView::Sub { .. } => t.len() >= 4 && t[0] == 's' && t[1] == 'u' && t[3]
                    == ' ',
            }
        }),
{
    reveal_strlit(".");
    reveal_strlit("text");
    reveal_strlit(".global ");
    reveal_strlit(":");
    reveal_strlit("svc #");
    reveal_strlit("mov ");
    reveal_strlit("add ");
    reveal_strlit("sub ");
    match inst {
        InstructionView::Svc { syscall } => {
            lemma_decimal_text_digits(syscall as nat);
        },
        _ => {},
    }
}

/// Two instructions of different kinds are written differently.
pub proof fn lemma_text_tells_kind(a: InstructionView, b: InstructionView)
    requires
        well_formed_instruction(a),
        well_formed_instruction(b),
        a.text() == b.text(),
    ensures
        a is Section <==> b is Section,
        a is Global <==> b is Global,
        a is Symbol <==> b is Symbol,
        a is Svc <==> b is Svc,
        a is Mov <==> b is Mov,
        a is Add <==> b is Add,
        a is Sub <==> b is Sub,
{
    lemma_text_marks(a);
    lemma_text_marks(b);
    let t = a.text();
    if a is Symbol || b is Symbol {
        if t.len() >= 8 {
            assert(t[7] != ' ');
        }
        if t.len() >= 4 {
            assert(t[3] != ' ');
        }
    }
}

/// A register and an operand behind a comma and a space can be read back
/// from what stands in front of them.
proof fn lemma_two_parts(
    front: Seq<char>,
    r1: Register,
    o1: Seq<char>,
    r2: Register,
    o2: Seq<char>,
)
    requires
        front + r1.mnemonic() + seq![',', ' '] + o1 == front + r2.mnemonic() + seq![',', ' '] + o2,
        free_of(front, ','),
    ensures
        r1 == r2,
        o1 == o2,
{
    lemma_mnemonic_plain(r1);
    lemma_mnemonic_plain(r2);
    let a1 = front + r1.mnemonic();
    let a2 = front + r2.mnemonic();
    let b1 = seq![' '] + o1;
    let b2 = seq![' '] + o2;
    assert(front + r1.mnemonic() + seq![',', ' '] + o1 =~= a1.push(',') + b1);
    assert(front + r2.mnemonic() + seq![',', ' '] + o2 =~= a2.push(',') + b2);
    lemma_split_at_first(a1, b1, a2, b2, ',');
    assert(r1.mnemonic() =~= a1.skip(front.len() as int));
    assert(r2.mnemonic() =~= a2.skip(front.len() as int));
    Register::lemma_mnemonic_injective(r1, r2);
    assert(o1 =~= b1.skip(1));
    assert(o2 =~= b2.skip(1));
}

/// Two well-formed instructions with the same text are the same.
pub proof fn lemma_text_injective(a: InstructionView, b: InstructionView)
    requires
        well_formed_instruction(a),
        well_formed_instruction(b),
        a.text() == b.text(),
    ensures
        a == b,
{
    lemma_text_tells_kind(a, b);
    reveal_strlit(".");
    reveal_strlit("text");
    reveal_strlit(".global ");
    reveal_strlit(" ");
    reveal_strlit(":");
    reveal_strlit("svc #");
    reveal_strlit("mov ");
    reveal_strlit("add ");
    reveal_strlit("sub ");
    reveal_strlit(", ");
    match (a, b) {
        (InstructionView::Section(j), InstructionView::Section(k)) => {},
        (InstructionView::Global(m), InstructionView::Global(n)) => {
            let head = ".global "@;
            assert(" "@ =~= seq![' ']);
            assert(joined(m, seq![' ']) =~= a.text().skip(head.len() as int));
            assert(joined(n, seq![' ']) =~= b.text().skip(head.len() as int));
            lemma_joined_injective(m, n);
        },
        (InstructionView::Symbol(m), InstructionView::Symbol(n)) => {
            assert(m =~= a.text().drop_last());
            assert(n =~= b.text().drop_last());
        },
        (InstructionView::Svc { syscall: j }, InstructionView::Svc { syscall: k }) => {
            let head = "svc #"@;
            assert(decimal_text(j as nat) =~= a.text().skip(head.len() as int));
            assert(decimal_text(k as nat) =~= b.text().skip(head.len() as int));
            lemma_decimal_text_injective(j as nat, k as nat);
        },
        (
            InstructionView::Mov { target: t1, value: v1 },
            InstructionView::Mov { target: t2, value: v2 },
        ) => {
            assert(", "@ =~= seq![',', ' ']);
            lemma_two_parts("mov "@, t1, v1.text(), t2, v2.text());
            Operand::lemma_text_injective(v1, v2);
        },
        (
            InstructionView::Add { target: t1, lhs: l1, rhs: r1 },
            InstructionView::Add { target: t2, lhs: l2, rhs: r2 },
        ) => {
            lemma_three_parts("add "@, t1, l1, r1, t2, l2, r2);
        },
        (
            InstructionView::Sub { target: t1, lhs: l1, rhs: r1 },
            InstructionView::Sub { target: t2, lhs: l2, rhs: r2 },
        ) => {
            lemma_three_parts("sub "@, t1, l1, r1, t2, l2, r2);
        },
        _ => {},
    }
}

/// Two registers and an operand, each two with a comma and a space between
/// them, can be read back from what stands in front of them.
proof fn lemma_three_parts(
    front: Seq<char>,
    t1: Register,
    l1: Register,
    r1: Operand,
    t2: Register,
    l2: Register,
    r2: Operand,
)
    requires
        front + t1.mnemonic() + ", "@ + l1.mnemonic() + ", "@ + r1.text() == front + t2.mnemonic()
            + ", "@ + l2.mnemonic() + ", "@ + r2.text(),
        free_of(front, ','),
    ensures
        t1 == t2,
        l1 == l2,
        r1 == r2,
{
    reveal_strlit(", ");
    let sep = seq![',', ' '];
    assert(", "@ =~= sep);
    let rest1 = l1.mnemonic() + sep + r1.text();
    let rest2 = l2.mnemonic() + sep + r2.text();
    assert(front + t1.mnemonic() + sep + l1.mnemonic() + sep + r1.text() =~= front + t1.mnemonic()
        + sep + rest1);
    assert(front + t2.mnemonic() + sep + l2.mnemonic() + sep + r2.text() =~= front + t2.mnemonic()
        + sep + rest2);
    lemma_two_parts(front, t1, rest1, t2, rest2);
    let none = Seq::<char>::empty();
    assert(none + l1.mnemonic() + sep + r1.text() =~= rest1);
    assert(none + l2.mnemonic() + sep + r2.text() =~= rest2);
    lemma_two_parts(none, l1, r1.text(), l2, r2.text());
    Operand::lemma_text_injective(r1, r2);
}

/// The text of a program is empty, or ends with an end of line.
proof fn lemma_rendered_ends(program: Seq<InstructionView>)
    ensures
        program.len() == 0 ==> rendered(program).len() == 0,
        program.len() > 0 ==> rendered(program).len() > 0 && rendered(program).last() == '\n',
{
}

/// Rendering is injective: two well-formed programs with the same assembly
/// text hold the same instructions in the same order.
pub proof fn lemma_rendered_injective(p: Seq<InstructionView>, q: Seq<InstructionView>)
    requires
        well_formed(p),
        well_formed(q),
        rendered(p) == rendered(q),
    ensures
        p == q,
    decreases p.len(),
{
    lemma_rendered_ends(p);
    lemma_rendered_ends(q);
    if p.len() == 0 || q.len() == 0 {
        assert(p =~= q);
    } else {
        let fp = rendered(p.drop_last());
        let fq = rendered(q.drop_last());
        let lp = p.last().text();
        let lq = q.last().text();
        lemma_text_one_line(p.last());
        lemma_text_one_line(q.last());
        lemma_rendered_ends(p.drop_last());
        lemma_rendered_ends(q.drop_last());
        lemma_last_line(fp, lp, fq, lq);
        lemma_text_injective(p.last(), q.last());
        assert(well_formed(p.drop_last())) by {
            assert forall|i: int| 0 <= i < p.drop_last().len() implies well_formed_instruction(
                #[trigger] p.drop_last()[i],
            ) by {
                assert(p.drop_last()[i] == p[i]);
            }
        }
        assert(well_formed(q.drop_last())) by {
            assert forall|i: int| 0 <= i < q.drop_last().len() implies well_formed_instruction(
                #[trigger] q.drop_last()[i],
            ) by {
                assert(q.drop_last()[i] == q[i]);
            }
        }
        lemma_rendered_injective(p.drop_last(), q.drop_last());
        assert(p =~= p.drop_last().push(p.last()));
        assert(q =~= q.drop_last().push(q.last()));
    }
}

/// A text that ends with a line can be cut before that line in one way
/// only, where what stands before it is empty or ends a line itself.
proof fn lemma_last_line(f1: Seq<char>, l1: Seq<char>, f2: Seq<char>, l2: Seq<char>)
    requires
        free_of(l1, '\n'),
        free_of(l2, '\n'),
        f1.len() > 0 ==> f1.last() == '\n',
        f2.len() > 0 ==> f2.last() == '\n',
        f1 + l1.push('\n') == f2 + l2.push('\n'),
    ensures
        f1 == f2,
        l1 == l2,
{
    let x = f1 + l1.push('\n');
    let y = f2 + l2.push('\n');
    assert(x.len() == y.len());
    if l1.len() < l2.len() {
        // the end of `f1` falls inside `l2`
        assert(f1.len() > 0);
        assert(x[f1.len() - 1] == '\n');
        assert(y[f1.len() - 1] == l2[f1.len() - 1 - f2.len()]);
    }
    if l2.len() < l1.len() {
        assert(f2.len() > 0);
        assert(y[f2.len() - 1] == '\n');
        assert(x[f2.len() - 1] == l1[f2.len() - 1 - f1.len()]);
    }
    assert forall|i: int| 0 <= i < f1.len() implies f1[i] == f2[i] by {
        assert(x[i] == f1[i]);
        assert(y[i] == f2[i]);
    }
    assert(f1 =~= f2);
    assert forall|i: int| 0 <= i < l1.len() implies l1[i] == l2[i] by {
        assert(x[f1.len() + i] == l1[i]);
        assert(y[f2.len() + i] == l2[i]);
    }
    assert(l1 =~= l2);
}

/// The instructions that terms are translated into hold no names.
proof fn lemma_terms_well_formed(s: Seq<char>)
    ensures
        terms(s) matches Ok(body) ==> well_formed(body),
    decreases s.len(),
{
    if s.len() > 0 && (s[0] == '+' || s[0] == '-') {
        lemma_digit_run_bounds(s.skip(1));
        lemma_terms_well_formed(after_numeral(s.skip(1)));
    }
}

/// What translation gives is a well-formed program, so that its text tells
/// it apart from every other well-formed program.
pub proof fn lemma_translation_well_formed(src: Seq<char>)
    ensures
        translation(src) matches Ok(program) ==> well_formed(program),
{
    reveal_strlit("_start");
    lemma_terms_well_formed(after_numeral(src));
    assert(is_name("_start"@));
}

/// The text of a translated program tells which program it is: two
/// expressions whose programs are written alike have the same program.
pub proof fn lemma_translated_text_injective(a: Seq<char>, b: Seq<char>)
    requires
        translation(a) is Ok,
        translation(b) is Ok,
        rendered(translation(a)->Ok_0) == rendered(translation(b)->Ok_0),
    ensures
        translation(a) == translation(b),
{
    lemma_translation_well_formed(a);
    lemma_translation_well_formed(b);
    lemma_rendered_injective(translation(a)->Ok_0, translation(b)->Ok_0);
}

} // verus!
