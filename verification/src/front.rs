//! The compiler's front: what has to be written and run, and in which
//! order, to turn a source text into an executable file.

use crate::assembly::{asm_str, rendered, translation, InstructionView};
use crate::err::{LlccB, LlccError, B};
use crate::orchestrator::file_manage::{texts, Dest, DestKind, DestView};
use vstd::prelude::*;
use vstd::string::StringExecFns;

verus! {

/// One thing to do for a build. Paths are given by their parts below the
/// project's directory.
#[derive(Debug, PartialEq, Eq)]
pub enum Step {
    /// Write `text` to the file at `path`, in place of what it held.
    Write { path: Vec<String>, text: String },
    /// Run `tool` to make the file at `output` from the file at `input`.
    Run { tool: &'static str, output: Vec<String>, input: Vec<String> },
}

/// What a step is, with its texts as character sequences.
pub enum StepView {
    Write { path: Seq<Seq<char>>, text: Seq<char> },
    Run { tool: Seq<char>, output: Seq<Seq<char>>, input: Seq<Seq<char>> },
}

impl View for Step {
    type V = StepView;

    open spec fn view(&self) -> StepView {
        match *self {
            Step::Write { path, text } => StepView::Write { path: texts(path@), text: text@ },
            Step::Run { tool, output, input } => StepView::Run {
                tool: tool@,
                output: texts(output@),
                input: texts(input@),
            },
        }
    }
}

/// The step that writes the assembly text of `program` for the build `dest`.
pub open spec fn emit_step(dest: DestView, program: Seq<InstructionView>) -> StepView {
    StepView::Write { path: dest.path_parts(DestKind::Asm), text: rendered(program) }
}

/// The step that assembles the assembly file of the build `dest` into its
/// object file.
pub open spec fn assemble_step(dest: DestView) -> StepView {
    StepView::Run {
        tool: "as"@,
        output: dest.path_parts(DestKind::Obj),
        input: dest.path_parts(DestKind::Asm),
    }
}

/// The step that links the object file of the build `dest` into its
/// executable file.
pub open spec fn link_step(dest: DestView) -> StepView {
    StepView::Run {
        tool: "ld"@,
        output: dest.path_parts(DestKind::Exe),
        input: dest.path_parts(DestKind::Obj),
    }
}

/// The arguments that a tool is run with to make `output` from `input`.
pub fn tool_args(output: &str, input: &str) -> (args: Vec<String>)
    ensures
        texts(args@) == seq!["-o"@, output@, input@],
{
    let mut args: Vec<String> = Vec::new();
    args.push(String::from_str("-o"));
    args.push(String::from_str(output));
    args.push(String::from_str(input));
    assert(texts(args@) =~= seq!["-o"@, output@, input@]);
    args
}

/// A compiler with the output area of one build.
#[derive(Debug)]
pub struct LlccCompiler {
    dest: Dest,
}

impl Default for LlccCompiler {
    /// A compiler with the output area of a new build: a random UUID of
    /// version 4, and nothing before or behind it.
    fn default() -> (compiler: Self)
        ensures
            compiler.dest().prefix is None,
            compiler.dest().postfix is None,
            (compiler.dest().uuid >> 76) & 0xf == 4,
            (compiler.dest().uuid >> 62) & 0x3 == 2,
    {
        LlccCompiler { dest: Dest::default() }
    }
}

impl LlccCompiler {
    /// The compiler that writes to `dest`.
    pub fn new(dest: Dest) -> (compiler: Self)
        ensures
            compiler.dest() == dest@,
    {
        LlccCompiler { dest }
    }

    /// The output area that the compiler writes to.
    pub closed spec fn dest(&self) -> DestView {
        self.dest@
    }

    /// The output area that the compiler writes to.
    pub fn files(&self) -> (dest: &Dest)
        ensures
            dest@ == self.dest(),
    {
        &self.dest
    }

    /// The path of the source file.
    pub fn src_path(&self) -> (path: Vec<String>)
        ensures
            texts(path@) == self.dest().path_parts(DestKind::Src),
    {
        self.dest.path(DestKind::Src)
    }

    /// The path of the executable file that `compile` has made once its
    /// steps are done.
    pub fn exe_path(&self) -> (path: Vec<String>)
        ensures
            texts(path@) == self.dest().path_parts(DestKind::Exe),
    {
        self.dest.path(DestKind::Exe)
    }

    /// The steps that make the executable file from the expression `src`:
    /// write the assembly text, assemble it, link it. Where `src` cannot be
    /// translated there is no step to take, and the error says why.
    pub fn compile(&self, src: &str) -> (r: LlccB<Vec<Step>>)
        ensures
            match r {
                B::X(steps) => translation(src@) matches Ok(program) && steps@.map_values(
                    |step: Step| step@,
                ) == seq![
                    emit_step(self.dest(), program),
                    assemble_step(self.dest()),
                    link_step(self.dest()),
                ],
                B::Y(e) => translation(src@) == Err::<Seq<InstructionView>, LlccError>(e),
            },
    {
        let emit = match self.emit_asm(src) {
            B::X(step) => step,
            B::Y(e) => {
                return B::Y(e);
            },
        };
        let mut steps: Vec<Step> = Vec::new();
        steps.push(emit);
        steps.push(self.assemble());
        steps.push(self.link());
        proof {
            let program = translation(src@)->Ok_0;
            assert(steps@.map_values(|step: Step| step@) =~= seq![
                emit_step(self.dest(), program),
                assemble_step(self.dest()),
                link_step(self.dest()),
            ]);
        }
        B::X(steps)
    }

    /// The step that writes the assembly text for the expression `src`, or
    /// the error that translating `src` gives.
    pub fn emit_asm(&self, src: &str) -> (r: LlccB<Step>)
        ensures
            match r {
                B::X(step) => translation(src@) matches Ok(program) && step@ == emit_step(
                    self.dest(),
                    program,
                ),
                B::Y(e) => translation(src@) == Err::<Seq<InstructionView>, LlccError>(e),
            },
    {
        let program = match asm_str(src) {
            B::X(program) => program,
            B::Y(e) => {
                return B::Y(e);
            },
        };
        let text = String::from(program);
        B::X(Step::Write { path: self.dest.path(DestKind::Asm), text })
    }

    /// The step that assembles the assembly file into the object file.
    pub fn assemble(&self) -> (step: Step)
        ensures
            step@ == assemble_step(self.dest()),
    {
        Step::Run {
            tool: "as",
            output: self.dest.path(DestKind::Obj),
            input: self.dest.path(DestKind::Asm),
        }
    }

    /// The step that links the object file into the executable file.
    pub fn link(&self) -> (step: Step)
        ensures
            step@ == link_step(self.dest()),
    {
        Step::Run {
            tool: "ld",
            output: self.dest.path(DestKind::Exe),
            input: self.dest.path(DestKind::Obj),
        }
    }
}

} // verus!
