use llcc::err::LlccError;
use llcc::register::{
    fits_in, refusal_place, unnamed_place, Immediate, Register, RegisterOrImmediate,
};
use std::str::FromStr;

const NUMBERED_X: [Register; 32] = [
    Register::X0,
    Register::X1,
    Register::X2,
    Register::X3,
    Register::X4,
    Register::X5,
    Register::X6,
    Register::X7,
    Register::X8,
    Register::X9,
    Register::X10,
    Register::X11,
    Register::X12,
    Register::X13,
    Register::X14,
    Register::X15,
    Register::X16,
    Register::X17,
    Register::X18,
    Register::X19,
    Register::X20,
    Register::X21,
    Register::X22,
    Register::X23,
    Register::X24,
    Register::X25,
    Register::X26,
    Register::X27,
    Register::X28,
    Register::X29,
    Register::X30,
    Register::X31,
];

const NUMBERED_W: [Register; 31] = [
    Register::W0,
    Register::W1,
    Register::W2,
    Register::W3,
    Register::W4,
    Register::W5,
    Register::W6,
    Register::W7,
    Register::W8,
    Register::W9,
    Register::W10,
    Register::W11,
    Register::W12,
    Register::W13,
    Register::W14,
    Register::W15,
    Register::W16,
    Register::W17,
    Register::W18,
    Register::W19,
    Register::W20,
    Register::W21,
    Register::W22,
    Register::W23,
    Register::W24,
    Register::W25,
    Register::W26,
    Register::W27,
    Register::W28,
    Register::W29,
    Register::W30,
];

#[test]
fn numbered_registers_render_as_letter_and_number() {
    for (n, reg) in NUMBERED_X.iter().enumerate() {
        assert_eq!(reg.to_string(), format!("x{n}"));
    }
    for (n, reg) in NUMBERED_W.iter().enumerate() {
        assert_eq!(reg.to_string(), format!("w{n}"));
    }
}

#[test]
fn special_registers_render_in_lower_case() {
    assert_eq!(Register::Sp.to_string(), "sp");
    assert_eq!(Register::Xzr.to_string(), "xzr");
    assert_eq!(Register::Wzr.to_string(), "wzr");
}

#[test]
fn every_mnemonic_parses_back() {
    for reg in NUMBERED_X.iter().chain(NUMBERED_W.iter()).chain(
        [Register::Sp, Register::Xzr, Register::Wzr].iter(),
    ) {
        let name = reg.to_string();
        assert_eq!(Register::from_str(&name), Ok(*reg));
        assert_eq!(Register::from_str(&name.to_uppercase()), Ok(*reg));
        assert_eq!(name.parse::<Register>(), Ok(*reg));
    }
}

#[test]
fn no_two_registers_share_a_mnemonic() {
    let all: Vec<Register> = NUMBERED_X
        .iter()
        .chain(NUMBERED_W.iter())
        .chain([Register::Sp, Register::Xzr, Register::Wzr].iter())
        .copied()
        .collect();
    assert_eq!(all.len(), 66);
    for (i, a) in all.iter().enumerate() {
        for (j, b) in all.iter().enumerate() {
            assert_eq!(a.to_string() == b.to_string(), i == j);
        }
    }
}

#[test]
fn register_names_ignore_letter_case() {
    assert_eq!(Register::from_str("x0"), Ok(Register::X0));
    assert_eq!(Register::from_str("X0"), Ok(Register::X0));
    assert_eq!(Register::from_str("W17"), Ok(Register::W17));
    assert_eq!(Register::from_str("sP"), Ok(Register::Sp));
    assert_eq!(Register::from_str("SP"), Ok(Register::Sp));
    assert_eq!(Register::from_str("xZr"), Ok(Register::Xzr));
    assert_eq!(Register::from_str("WZR"), Ok(Register::Wzr));
    assert_eq!(Register::from_str("x31"), Ok(Register::X31));
    assert_eq!(Register::from_str("w30"), Ok(Register::W30));
}

#[test]
fn unknown_names_are_unrecognized_registers() {
    for name in [
        "", "x", "w", "s", "xz", "x32", "w31", "x99", "x00", "x01", "x031", "x100", "y0", "r0",
        "sp ", " sp", "x 1", "x-1", "x+1", "xzrr", "szr", "zr", "pc", "x1a", "xa1", "x\u{0661}",
        "\u{0445}0", "x0\n", "spx", "wsp", "x3.",
    ] {
        assert_eq!(Register::from_str(name), Err(LlccError::Parse { loc: unnamed_place() }), "{name:?}");
    }
}

#[test]
fn operand_from_text_is_a_register() {
    let got: Result<RegisterOrImmediate<12, false>, LlccError> = RegisterOrImmediate::try_from("X8");
    assert_eq!(got, Ok(RegisterOrImmediate::Register(Register::X8)));
    let got: Result<RegisterOrImmediate<12, false>, LlccError> = RegisterOrImmediate::try_from("#8");
    assert_eq!(got, Err(LlccError::Parse { loc: unnamed_place() }));
}

#[test]
fn operands_render_by_kind() {
    let reg: RegisterOrImmediate<12, false> = RegisterOrImmediate::Register(Register::W5);
    assert_eq!(reg.to_string(), "w5");
    let lit: RegisterOrImmediate<12, false> = RegisterOrImmediate::try_from(42).unwrap();
    assert_eq!(lit.to_string(), "#42");
    let neg: RegisterOrImmediate<12, true> = RegisterOrImmediate::try_from(-2048).unwrap();
    assert_eq!(neg.to_string(), "#-2048");
    let low: RegisterOrImmediate<32, true> = RegisterOrImmediate::try_from(i32::MIN).unwrap();
    assert_eq!(low.to_string(), "#-2147483648");
    let zero: RegisterOrImmediate<1, false> = RegisterOrImmediate::try_from(0).unwrap();
    assert_eq!(zero.to_string(), "#0");
}

#[test]
fn twelve_bit_unsigned_boundary() {
    assert_eq!(
        Immediate::<12, false>::try_from(4096),
        Err(LlccError::MismatchImmediateType {
            origin: 4096,
            max_bit: 12,
            is_signed: false,
            loc: refusal_place(),
        })
    );
    assert_eq!(Immediate::<12, false>::try_from(4095).map(|i| i.value()), Ok(4095));
    assert_eq!(Immediate::<12, false>::try_from(0).map(|i| i.value()), Ok(0));
    assert_eq!(
        Immediate::<12, false>::try_from(-1),
        Err(LlccError::MismatchImmediateType {
            origin: -1,
            max_bit: 12,
            is_signed: false,
            loc: refusal_place(),
        })
    );
}

#[test]
fn twelve_bit_signed_boundary() {
    assert_eq!(Immediate::<12, true>::try_from(2047).map(|i| i.value()), Ok(2047));
    assert_eq!(Immediate::<12, true>::try_from(-2048).map(|i| i.value()), Ok(-2048));
    assert_eq!(
        Immediate::<12, true>::try_from(2048),
        Err(LlccError::MismatchImmediateType {
            origin: 2048,
            max_bit: 12,
            is_signed: true,
            loc: refusal_place(),
        })
    );
    assert_eq!(
        Immediate::<12, true>::try_from(-2049),
        Err(LlccError::MismatchImmediateType {
            origin: -2049,
            max_bit: 12,
            is_signed: true,
            loc: refusal_place(),
        })
    );
}

#[test]
fn widest_and_narrowest_fields() {
    assert!(Immediate::<1, false>::try_from(0).is_ok());
    assert!(Immediate::<1, false>::try_from(1).is_ok());
    assert!(Immediate::<1, false>::try_from(2).is_err());
    assert!(Immediate::<1, true>::try_from(-1).is_ok());
    assert!(Immediate::<1, true>::try_from(0).is_ok());
    assert!(Immediate::<1, true>::try_from(1).is_err());
    assert!(Immediate::<1, true>::try_from(-2).is_err());
    assert!(Immediate::<31, false>::try_from(i32::MAX).is_ok());
    assert!(Immediate::<32, false>::try_from(i32::MAX).is_ok());
    assert!(Immediate::<32, false>::try_from(-1).is_err());
    assert!(Immediate::<32, true>::try_from(i32::MAX).is_ok());
    assert!(Immediate::<32, true>::try_from(i32::MIN).is_ok());
    assert!(Immediate::<31, true>::try_from(i32::MAX).is_err());
    assert!(Immediate::<31, true>::try_from(i32::MIN).is_err());
    assert!(Immediate::<31, true>::try_from(1073741823).is_ok());
    assert!(Immediate::<31, true>::try_from(-1073741824).is_ok());
}

#[test]
fn range_holds_at_every_width() {
    for bits in 1u8..=32 {
        let top_unsigned: i64 = (1i64 << bits) - 1;
        let top_signed: i64 = (1i64 << (bits - 1)) - 1;
        let low_signed: i64 = -(1i64 << (bits - 1));
        let probes = [
            i32::MIN as i64,
            low_signed - 1,
            low_signed,
            low_signed + 1,
            -1,
            0,
            1,
            top_signed - 1,
            top_signed,
            top_signed + 1,
            top_unsigned - 1,
            top_unsigned,
            top_unsigned + 1,
            i32::MAX as i64,
        ];
        for probe in probes {
            if probe < i32::MIN as i64 || probe > i32::MAX as i64 {
                continue;
            }
            let value = probe as i32;
            assert_eq!(
                fits_in(value, bits, false),
                0 <= probe && probe <= top_unsigned,
                "{value} in {bits} bits unsigned"
            );
            assert_eq!(
                fits_in(value, bits, true),
                low_signed <= probe && probe <= top_signed,
                "{value} in {bits} bits signed"
            );
        }
    }
}

#[test]
fn fields_outside_one_to_thirty_two_bits() {
    assert!(fits_in(0, 0, false));
    assert!(!fits_in(1, 0, false));
    assert!(!fits_in(0, 0, true));
    assert!(fits_in(i32::MAX, 33, false));
    assert!(fits_in(i32::MIN, 33, true));
    assert!(fits_in(i32::MAX, 255, true));
    assert!(!fits_in(-1, 255, false));
}
