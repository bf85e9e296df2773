use llcc::assembly::Assembler;
use llcc::assembly::{numeral_place, token_place};
use llcc::err::{unknown_place, LlccB, LlccError, NumeralFault, Place, B};
use llcc::front::{tool_args, LlccCompiler, Step};
use llcc::orchestrator::file_manage::{Dest, DestKind};
use llcc::orchestrator::{
    lacking_place, post_process, run_fixture, MockRunMeta, Own, Src, SrcOwned,
};
use llcc::register::refusal_place;
use llcc::parse::syntax::c::C;
use llcc::parse::Parser;
use llcc::semantics::ability::{Effect, Exec, ReadIn, WriteOut};
use llcc::semantics::context::{HasIn, HasOut};
use llcc::semantics::{Convert, Ctx, Orchestrate, RunCtx, RunState, SrcCtx};
use llcc::stringify_path;

const SAMPLE: u128 = 0xa1a2a3a4b1b2c1c2d1d2d3d4d5d6d7d8;

const HERE: Place = Place { file: "tests/files.rs", line: 17, column: 1 };

fn strings(parts: &[&str]) -> Vec<String> {
    parts.iter().map(|p| p.to_string()).collect()
}

#[test]
fn uuid_is_written_hyphenated_in_lower_case() {
    assert_eq!(Dest::new(None, SAMPLE, None).uuid_part(), "a1a2a3a4-b1b2-c1c2-d1d2-d3d4d5d6d7d8");
    assert_eq!(Dest::new(None, 0, None).uuid_part(), "00000000-0000-0000-0000-000000000000");
    assert_eq!(
        Dest::new(None, u128::MAX, None).uuid_part(),
        "ffffffff-ffff-ffff-ffff-ffffffffffff"
    );
    assert_eq!(
        Dest::new(None, 0x0123456789abcdef0fedcba987654321, None).uuid_part(),
        "01234567-89ab-cdef-0fed-cba987654321"
    );
    assert_eq!(Dest::new(None, 1, None).uuid_part(), "00000000-0000-0000-0000-000000000001");
}

#[test]
fn directory_name_joins_prefix_uuid_and_postfix() {
    let pre = Some("test".to_string());
    let post = Some("run".to_string());
    assert_eq!(
        Dest::new(pre.clone(), SAMPLE, None).uuid_part(),
        "test-a1a2a3a4-b1b2-c1c2-d1d2-d3d4d5d6d7d8"
    );
    assert_eq!(
        Dest::new(None, SAMPLE, post.clone()).uuid_part(),
        "a1a2a3a4-b1b2-c1c2-d1d2-d3d4d5d6d7d8-run"
    );
    assert_eq!(
        Dest::new(pre, SAMPLE, post).uuid_part(),
        "test-a1a2a3a4-b1b2-c1c2-d1d2-d3d4d5d6d7d8-run"
    );
    assert_eq!(
        Dest::new(Some(String::new()), SAMPLE, Some(String::new())).uuid_part(),
        "-a1a2a3a4-b1b2-c1c2-d1d2-d3d4d5d6d7d8-"
    );
}

#[test]
fn file_names_by_kind() {
    assert_eq!(DestKind::Src.path(), "main.c");
    assert_eq!(DestKind::Asm.path(), "out.s");
    assert_eq!(DestKind::Obj.path(), "out.o");
    assert_eq!(DestKind::Exe.path(), "out");
    assert_eq!(DestKind::OutDir.path(), "");
}

#[test]
fn paths_below_the_project_directory() {
    let dest = Dest::new(Some("t".to_string()), SAMPLE, None);
    let dir = "t-a1a2a3a4-b1b2-c1c2-d1d2-d3d4d5d6d7d8";
    assert_eq!(dest.base_of(DestKind::Asm), strings(&["assets", "out", dir]));
    assert_eq!(dest.base_of(DestKind::Src), strings(&["assets", "main.c"]));
    assert_eq!(dest.path(DestKind::Asm), strings(&["assets", "out", dir, "out.s"]));
    assert_eq!(dest.path(DestKind::Obj), strings(&["assets", "out", dir, "out.o"]));
    assert_eq!(dest.path(DestKind::Exe), strings(&["assets", "out", dir, "out"]));
    assert_eq!(dest.path(DestKind::OutDir), strings(&["assets", "out", dir, ""]));
    assert_eq!(dest.path(DestKind::Src), strings(&["assets", "main.c", "main.c"]));
}

#[test]
fn copies_of_an_output_area_are_equal() {
    let dest = Dest::new(Some("a".to_string()), SAMPLE, Some("b".to_string()));
    assert_eq!(dest.clone(), dest);
    assert_eq!(dest.uuid(), SAMPLE);
}

#[test]
fn fresh_output_areas_carry_version_four_uuids() {
    let a = Dest::default();
    let b = Dest::default();
    for dest in [&a, &b] {
        assert_eq!((dest.uuid() >> 76) & 0xf, 4);
        assert_eq!((dest.uuid() >> 62) & 0x3, 2);
        let name = dest.uuid_part();
        assert_eq!(name.len(), 36);
        assert_eq!(name.as_bytes()[14], b'4');
    }
    assert_ne!(a.uuid(), b.uuid());
}

#[test]
fn tool_arguments_name_the_output_first() {
    assert_eq!(tool_args("out.o", "out.s"), strings(&["-o", "out.o", "out.s"]));
}

#[test]
fn compile_plans_write_assemble_link() {
    let compiler = LlccCompiler::new(Dest::new(None, SAMPLE, None));
    let dir = "a1a2a3a4-b1b2-c1c2-d1d2-d3d4d5d6d7d8";
    let asm_path = strings(&["assets", "out", dir, "out.s"]);
    let obj_path = strings(&["assets", "out", dir, "out.o"]);
    let exe_path = strings(&["assets", "out", dir, "out"]);
    let steps = match compiler.compile("10+5") {
        B::X(steps) => steps,
        B::Y(e) => panic!("{}", e.to_string()),
    };
    assert_eq!(
        steps,
        vec![
            Step::Write {
                path: asm_path.clone(),
                text: ".text\n.global _start\n_start:\nmov x0, #10\nadd x0, x0, #5\nmov x8, #93\nsvc #93\n"
                    .to_string(),
            },
            Step::Run { tool: "as", output: obj_path.clone(), input: asm_path.clone() },
            Step::Run { tool: "ld", output: exe_path.clone(), input: obj_path.clone() },
        ]
    );
    assert_eq!(compiler.assemble(), Step::Run { tool: "as", output: obj_path.clone(), input: asm_path });
    assert_eq!(compiler.link(), Step::Run { tool: "ld", output: exe_path.clone(), input: obj_path });
    assert_eq!(compiler.exe_path(), exe_path);
    assert_eq!(compiler.src_path(), strings(&["assets", "main.c", "main.c"]));
    assert_eq!(compiler.files().uuid(), SAMPLE);
}

#[test]
fn compile_plans_nothing_for_a_refused_source() {
    let compiler = LlccCompiler::new(Dest::new(None, SAMPLE, None));
    assert_eq!(compiler.compile("5&3"), B::Y(LlccError::UnsupportedToken { found: '&', loc: token_place() }));
    assert_eq!(
        compiler.emit_asm(""),
        B::Y(LlccError::ParseSrcInt { fault: NumeralFault::Empty, loc: numeral_place() })
    );
    assert_eq!(
        compiler.compile("9999"),
        B::Y(LlccError::MismatchImmediateType {
            origin: 9999,
            max_bit: 12,
            is_signed: false,
            loc: refusal_place(),
        })
    );
}

#[test]
fn default_compiler_has_a_bare_directory_name() {
    let compiler = LlccCompiler::default();
    assert_eq!(compiler.files().uuid_part().len(), 36);
    assert_eq!((compiler.files().uuid() >> 76) & 0xf, 4);
    assert_eq!((compiler.files().uuid() >> 62) & 0x3, 2);
}

#[test]
fn assembler_keeps_its_output_area() {
    let assembler = Assembler::new(Dest::new(None, SAMPLE, None));
    assert_eq!(assembler.dest().uuid(), SAMPLE);
}

#[test]
fn borrowed_source_becomes_owned() {
    assert_eq!(Src::Str("1+2").own(), SrcOwned::Str("1+2".to_string()));
    assert_eq!(Src::Path("assets/main.c").own(), SrcOwned::Path("assets/main.c".to_string()));
}

#[test]
fn mock_context_holds_input_and_output() {
    let meta = MockRunMeta::new(Src::Str("7"), Dest::new(None, SAMPLE, None));
    assert!(meta.exist_in());
    assert!(meta.exist_out());
    assert_eq!(meta.in_info(), Some(&Src::Str("7")));
    assert_eq!(meta.in_info_owned(), Some(SrcOwned::Str("7".to_string())));
    assert_eq!(meta.out_info().map(|d| d.uuid()), Some(SAMPLE));
    assert_eq!(meta.out_info_owned(), Some(Dest::new(None, SAMPLE, None)));
    assert_eq!(MockRunMeta::ROLE, "mock orchestration");
    assert_eq!(meta.as_run_ctx().exist_in(), true);
    assert_eq!(meta.as_src_ctx().exist_out(), true);
}

#[test]
fn fixture_writes_below_a_test_directory() {
    let meta = run_fixture("42");
    assert_eq!(meta.in_info_owned(), Some(SrcOwned::Str("42".to_string())));
    let files = meta.out_info().unwrap();
    let name = files.uuid_part();
    assert!(name.starts_with("test-"));
    assert_eq!(name.len(), 41);
    assert_eq!((files.uuid() >> 76) & 0xf, 4);
    assert_eq!((files.uuid() >> 62) & 0x3, 2);
}

struct Bare;

impl Ctx for Bare {
    const ROLE: &'static str = "nothing at all";
}

impl HasIn for Bare {
    type InInfo = SrcOwned;
    type InInfoRef = SrcOwned;

    fn in_info(&self) -> Option<&SrcOwned> {
        None
    }

    fn in_info_owned(&self) -> Option<SrcOwned> {
        None
    }
}

impl HasOut for Bare {
    type OutInfo = ();
    type OutInfoRef = ();

    fn out_info(&self) -> Option<&()> {
        None
    }

    fn out_info_owned(&self) -> Option<()> {
        None
    }
}

impl SrcCtx for Bare {}

#[test]
fn run_starts_from_the_source_in_the_context() {
    let meta = MockRunMeta::new(Src::Path("assets/main.c"), Dest::new(None, SAMPLE, None));
    match post_process(meta, "MockRunMeta") {
        B::X((src, compiler)) => {
            assert_eq!(src, SrcOwned::Path("assets/main.c".to_string()));
            assert_eq!(compiler.files().uuid_part().len(), 36);
            assert_eq!((compiler.files().uuid() >> 76) & 0xf, 4);
            assert_eq!((compiler.files().uuid() >> 62) & 0x3, 2);
        },
        B::Y(e) => panic!("{}", e.to_string()),
    }
}

#[test]
fn context_without_input_is_a_missing_context() {
    assert!(!Bare.exist_in());
    assert!(!Bare.exist_out());
    match post_process(Bare, "Bare") {
        B::X(_) => panic!("a source came out of a context that holds none"),
        B::Y(e) => {
            assert_eq!(
                e,
                LlccError::LackOfContext {
                    context_role: "nothing at all",
                    holder: "Bare",
                    loc: lacking_place(),
                }
            );
            assert_eq!(
                e.to_string(),
                format!(
                    "context: `Bare` for nothing at all should take enough info. at: [{}]",
                    lacking_place().to_string()
                )
            );
            assert_eq!(lacking_place().file, "src/orchestrator.rs");
        },
    }
    assert_eq!(
        LlccError::lack_of_ctx::<MockRunMeta>("MockRunMeta", HERE),
        LlccError::LackOfContext {
            context_role: "mock orchestration",
            holder: "MockRunMeta",
            loc: HERE,
        }
    );
}

#[test]
fn path_without_text_is_an_unknown_error() {
    assert_eq!(stringify_path(Some("a/b")), B::X("a/b".to_string()));
    assert_eq!(
        stringify_path(None),
        B::Y(LlccError::Unknown { msg: "failed to get path".to_string(), loc: unknown_place() })
    );
}

struct Printer;

impl Effect for Printer {}

impl WriteOut for Printer {
    type Out = usize;

    fn emit(&self) -> LlccB<usize> {
        B::X(3)
    }
}

impl ReadIn for Printer {
    type In = String;

    fn load(&self) -> LlccB<String> {
        B::Y(LlccError::Io { detail: "nothing to read".to_string(), loc: HERE })
    }
}

impl Exec for Printer {
    type Status = i32;

    fn exec(&self) -> LlccB<i32> {
        B::X(0)
    }
}

impl RunState for Printer {
    type State = bool;

    fn state(&self) -> bool {
        true
    }
}

impl Convert<String, usize, false> for Printer {
    fn convert(&self) {}
}

impl Orchestrate for Printer {}

#[test]
fn abilities_can_be_given_to_a_type() {
    assert_eq!(Printer.emit(), B::X(3));
    assert_eq!(
        Printer.load(),
        B::Y(LlccError::Io { detail: "nothing to read".to_string(), loc: HERE })
    );
    assert_eq!(Printer.exec(), B::X(0));
    assert!(Printer.state());
    Printer.convert();
}

#[test]
fn parser_can_be_ended_at_any_point() {
    let chars = ['1', '+', '2'];
    let mut cursor = Parser::new(&chars[..]);
    assert_eq!(cursor.next(), Some('1'));
    cursor.parse();
    assert_eq!(C::Arithmetic, C::Arithmetic);
}
