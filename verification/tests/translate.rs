use llcc::assembly::{
    asm_str, numeral_place, parse_number, token_place, Instruction, ReadableAsm, SectionKind, EXIT,
};
use llcc::err::{unknown_place, Container, LlccError, NumeralFault, ReShape, B};
use llcc::parse::Parser;
use llcc::register::{refusal_place, Immediate, Register, RegisterOrImmediate};

fn imm(value: i32) -> RegisterOrImmediate<12, false> {
    RegisterOrImmediate::try_from(value).unwrap()
}

fn program(src: &str) -> ReadableAsm<'static> {
    match asm_str(src) {
        B::X(program) => program,
        B::Y(e) => panic!("{src:?} was refused: {}", e.to_string()),
    }
}

fn refusal(src: &str) -> LlccError {
    match asm_str(src) {
        B::X(program) => panic!("{src:?} was translated: {:?}", program),
        B::Y(e) => e,
    }
}

fn text(src: &str) -> String {
    String::from(program(src))
}

#[test]
fn single_number_gives_the_six_instructions() {
    let expected = vec![
        Instruction::Section(SectionKind::Text),
        Instruction::Global(&["_start"]),
        Instruction::Symbol("_start"),
        Instruction::Mov { target: Register::X0, value: imm(5) },
        Instruction::Mov { target: Register::X8, value: imm(93) },
        Instruction::Svc { syscall: 93 },
    ];
    assert_eq!(program("5").0, expected);
}

#[test]
fn single_number_text() {
    assert_eq!(text("5"), ".text\n.global _start\n_start:\nmov x0, #5\nmov x8, #93\nsvc #93\n");
}

#[test]
fn addition_adds_one_line_before_the_exit() {
    let got = program("10+5");
    assert_eq!(got.0.len(), 7);
    assert_eq!(got.0[3], Instruction::Mov { target: Register::X0, value: imm(10) });
    assert_eq!(
        got.0[4],
        Instruction::Add { target: Register::X0, lhs: Register::X0, rhs: imm(5) }
    );
    assert_eq!(got.0[5], Instruction::Mov { target: Register::X8, value: imm(93) });
    assert_eq!(
        String::from(got),
        ".text\n.global _start\n_start:\nmov x0, #10\nadd x0, x0, #5\nmov x8, #93\nsvc #93\n"
    );
}

#[test]
fn subtractions_keep_their_order() {
    let got = program("20-7-3");
    assert_eq!(got.0.len(), 8);
    assert_eq!(
        got.0[4],
        Instruction::Sub { target: Register::X0, lhs: Register::X0, rhs: imm(7) }
    );
    assert_eq!(
        got.0[5],
        Instruction::Sub { target: Register::X0, lhs: Register::X0, rhs: imm(3) }
    );
    assert_eq!(
        String::from(got),
        ".text\n.global _start\n_start:\nmov x0, #20\nsub x0, x0, #7\nsub x0, x0, #3\nmov x8, #93\nsvc #93\n"
    );
}

#[test]
fn mixed_terms() {
    assert_eq!(
        text("1+2-3+4"),
        ".text\n.global _start\n_start:\nmov x0, #1\nadd x0, x0, #2\nsub x0, x0, #3\nadd x0, x0, #4\nmov x8, #93\nsvc #93\n"
    );
}

#[test]
fn empty_input_is_a_malformed_numeral() {
    assert_eq!(refusal(""), LlccError::ParseSrcInt { fault: NumeralFault::Empty, loc: numeral_place() });
}

#[test]
fn unsupported_token_after_the_first_number() {
    assert_eq!(refusal("5&3"), LlccError::UnsupportedToken { found: '&', loc: token_place() });
}

#[test]
fn unsupported_token_is_no_abort_for_other_operators() {
    assert_eq!(refusal("5*3"), LlccError::UnsupportedToken { found: '*', loc: token_place() });
    assert_eq!(refusal("5 + 3"), LlccError::UnsupportedToken { found: ' ', loc: token_place() });
    assert_eq!(refusal("5(3)"), LlccError::UnsupportedToken { found: '(', loc: token_place() });
    assert_eq!(refusal("5\u{0663}"), LlccError::UnsupportedToken { found: '\u{0663}', loc: token_place() });
}

#[test]
fn sign_without_numeral_is_a_malformed_numeral() {
    assert_eq!(refusal("5+"), LlccError::ParseSrcInt { fault: NumeralFault::Empty, loc: numeral_place() });
    assert_eq!(refusal("5+-3"), LlccError::ParseSrcInt { fault: NumeralFault::Empty, loc: numeral_place() });
    assert_eq!(refusal("+5"), LlccError::ParseSrcInt { fault: NumeralFault::Empty, loc: numeral_place() });
    assert_eq!(refusal(" 5"), LlccError::ParseSrcInt { fault: NumeralFault::Empty, loc: numeral_place() });
    assert_eq!(refusal("\u{0663}"), LlccError::ParseSrcInt { fault: NumeralFault::Empty, loc: numeral_place() });
}

#[test]
fn numeral_above_the_host_integer_is_malformed() {
    assert_eq!(refusal("2147483648"), LlccError::ParseSrcInt { fault: NumeralFault::Overflow, loc: numeral_place() });
    assert_eq!(
        refusal("5+99999999999999999999999999"),
        LlccError::ParseSrcInt { fault: NumeralFault::Overflow, loc: numeral_place() }
    );
}

#[test]
fn number_outside_the_immediate_field_is_refused() {
    assert_eq!(
        refusal("4096"),
        LlccError::MismatchImmediateType {
            origin: 4096,
            max_bit: 12,
            is_signed: false,
            loc: refusal_place(),
        }
    );
    assert_eq!(
        refusal("1+2147483647"),
        LlccError::MismatchImmediateType {
            origin: 2147483647,
            max_bit: 12,
            is_signed: false,
            loc: refusal_place(),
        }
    );
    assert_eq!(text("4095"), ".text\n.global _start\n_start:\nmov x0, #4095\nmov x8, #93\nsvc #93\n");
}

#[test]
fn the_first_error_in_reading_order_wins() {
    assert_eq!(
        refusal("5000&"),
        LlccError::MismatchImmediateType {
            origin: 5000,
            max_bit: 12,
            is_signed: false,
            loc: refusal_place(),
        }
    );
    assert_eq!(refusal("5&5000"), LlccError::UnsupportedToken { found: '&', loc: token_place() });
    assert_eq!(refusal("+&"), LlccError::ParseSrcInt { fault: NumeralFault::Empty, loc: numeral_place() });
}

#[test]
fn leading_zeros_are_read_and_not_written() {
    assert_eq!(text("007"), ".text\n.global _start\n_start:\nmov x0, #7\nmov x8, #93\nsvc #93\n");
    assert_eq!(text("0"), ".text\n.global _start\n_start:\nmov x0, #0\nmov x8, #93\nsvc #93\n");
}

#[test]
fn translating_twice_gives_the_same_program() {
    for src in ["5", "10+5", "20-7-3", "0+0-0"] {
        assert_eq!(program(src), program(src));
    }
    for src in ["", "5&3", "4096", "1+"] {
        assert_eq!(refusal(src), refusal(src));
    }
}

#[test]
fn different_programs_have_different_text() {
    let sources = ["5", "6", "5+1", "5-1", "1+5", "5+1+1", "5+11", "51+1", "15", "5-1+1", "5+1-1"];
    for (i, a) in sources.iter().enumerate() {
        for (j, b) in sources.iter().enumerate() {
            assert_eq!(text(a) == text(b), i == j, "{a} and {b}");
            assert_eq!(program(a) == program(b), i == j, "{a} and {b}");
        }
    }
}

#[test]
fn exit_number_is_93() {
    assert_eq!(EXIT, 93);
}

fn lex(src: &str) -> (Result<i32, LlccError>, String) {
    let chars: Vec<char> = src.chars().collect();
    let mut cursor = Parser::new(chars.as_slice());
    let got = parse_number(&mut cursor).reshape(());
    let mut rest = String::new();
    while let Some(c) = cursor.next() {
        rest.push(c);
    }
    (got, rest)
}

#[test]
fn numeral_stops_at_the_first_other_character() {
    assert_eq!(lex("123+4"), (Ok(123), "+4".to_string()));
    assert_eq!(lex("0x10"), (Ok(0), "x10".to_string()));
    assert_eq!(lex("42"), (Ok(42), String::new()));
    assert_eq!(lex("2147483647;"), (Ok(2147483647), ";".to_string()));
}

#[test]
fn numeral_faults_leave_the_cursor_behind_the_digits() {
    assert_eq!(
        lex("abc"),
        (Err(LlccError::ParseSrcInt { fault: NumeralFault::Empty, loc: numeral_place() }), "abc".to_string())
    );
    assert_eq!(
        lex("2147483648+1"),
        (Err(LlccError::ParseSrcInt { fault: NumeralFault::Overflow, loc: numeral_place() }), "+1".to_string())
    );
    assert_eq!(lex(""), (Err(LlccError::ParseSrcInt { fault: NumeralFault::Empty, loc: numeral_place() }), String::new()));
}

#[test]
fn numeral_round_trip_on_chosen_numbers() {
    for n in [0, 1, 9, 10, 11, 99, 100, 4095, 4096, 65535, 1000000, i32::MAX - 1, i32::MAX] {
        for stop in ['+', '-', ' ', 'a', '/', ':'] {
            let src = format!("{n}{stop}tail");
            assert_eq!(lex(&src), (Ok(n), format!("{stop}tail")));
        }
    }
}

#[test]
fn cursor_peeks_without_moving() {
    let items = [7u8, 8, 9];
    let mut cursor = Parser::new(&items[..]);
    assert_eq!(cursor.peek(), Some(7));
    assert_eq!(cursor.peek(), Some(7));
    assert_eq!(cursor.next(), Some(7));
    assert_eq!(cursor.next(), Some(8));
    assert_eq!(cursor.peek(), Some(9));
    assert_eq!(cursor.next(), Some(9));
    assert_eq!(cursor.peek(), None);
    assert_eq!(cursor.next(), None);
    assert_eq!(cursor.next(), None);
}

#[test]
fn each_instruction_renders_on_one_line() {
    let x: RegisterOrImmediate<12, false> = RegisterOrImmediate::Register(Register::X9);
    assert_eq!(String::from(Instruction::Section(SectionKind::Text)), ".text\n");
    assert_eq!(String::from(Instruction::Global(&["_start"])), ".global _start\n");
    assert_eq!(String::from(Instruction::Global(&["a", "b", "c"])), ".global a b c\n");
    assert_eq!(String::from(Instruction::Global(&[])), ".global \n");
    assert_eq!(String::from(Instruction::Symbol("loop")), "loop:\n");
    assert_eq!(String::from(Instruction::Svc { syscall: 0 }), "svc #0\n");
    assert_eq!(String::from(Instruction::Svc { syscall: 65535 }), "svc #65535\n");
    assert_eq!(
        String::from(Instruction::Mov { target: Register::W3, value: x }),
        "mov w3, x9\n"
    );
    assert_eq!(
        String::from(Instruction::Add { target: Register::Sp, lhs: Register::Sp, rhs: imm(16) }),
        "add sp, sp, #16\n"
    );
    assert_eq!(
        String::from(Instruction::Sub { target: Register::X1, lhs: Register::Xzr, rhs: imm(4095) }),
        "sub x1, xzr, #4095\n"
    );
    assert_eq!(String::from(SectionKind::Text), "text");
}

#[test]
fn empty_program_renders_as_nothing() {
    assert_eq!(String::from(ReadableAsm::from_instructions(Vec::new())), "");
}

#[test]
fn two_way_result_changes_shape() {
    let ok: Result<u8, &str> = Ok(3);
    let bad: Result<u8, &str> = Err("no");
    assert_eq!(ok.reshape(()), B::X(3));
    assert_eq!(bad.reshape(()), B::<u8, &str>::Y("no"));

    let x: B<u8, &str> = B::X(3);
    let y: B<u8, &str> = B::Y("no");
    let as_result: Result<u8, &str> = B::<u8, &str>::X(3).reshape(());
    assert_eq!(as_result, Ok(3));
    let as_result: Result<u8, &str> = B::<u8, &str>::Y("no").reshape(());
    assert_eq!(as_result, Err("no"));
    let as_option: Option<u8> = x.reshape(());
    assert_eq!(as_option, Some(3));
    let as_option: Option<u8> = y.reshape(());
    assert_eq!(as_option, None);

    let some: B<u8, LlccError> = Some(3u8).reshape("missing");
    assert_eq!(some, B::X(3));
    let none: B<u8, LlccError> = None::<u8>.reshape("missing");
    assert_eq!(none, B::Y(LlccError::Unknown { msg: "missing".to_string(), loc: unknown_place() }));
}

#[test]
fn container_hands_out_what_it_holds() {
    let x: B<u8, LlccError> = B::X(3);
    assert_eq!(x.unwrap(), 3);
    let x: B<&str, LlccError> = B::X("held");
    assert_eq!(x.expect("a value was put in"), "held");
}

#[test]
fn immediate_value_comes_back() {
    let held = Immediate::<12, false>::try_from(77).unwrap();
    assert_eq!(held.value(), 77);
    assert_eq!(held.to_string(), "77");
}
