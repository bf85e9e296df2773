//! The run of one build: where its source comes from and where its files go.

use crate::err::{LlccB, LlccError, Place, B};
use crate::front::LlccCompiler;
use crate::orchestrator::file_manage::{random_uuid, Dest, DestView};
use crate::semantics::context::{HasIn, HasOut};
use crate::semantics::{Ctx, RunCtx, SrcCtx};
use vstd::prelude::*;
use vstd::string::StringExecFns;

pub mod file_manage;

verus! {

/// A source that is borrowed: the text itself, or the path of the file
/// that holds it.
#[derive(Debug, Clone, Copy, PartialEq, Eq)]
pub enum Src<'a> {
    Str(&'a str),
    Path(&'a str),
}

/// A source that is owned: the text itself, or the path of the file that
/// holds it.
#[derive(Debug, PartialEq, Eq)]
pub enum SrcOwned {
    Str(String),
    Path(String),
}

/// What a source is: a text, or a path, by its characters.
pub enum SrcView {
    Str(Seq<char>),
    Path(Seq<char>),
}

impl<'a> View for Src<'a> {
    type V = SrcView;

    open spec fn view(&self) -> SrcView {
        match *self {
            Src::Str(s) => SrcView::Str(s@),
            Src::Path(p) => SrcView::Path(p@),
        }
    }
}

impl View for SrcOwned {
    type V = SrcView;

    open spec fn view(&self) -> SrcView {
        match *self {
            SrcOwned::Str(s) => SrcView::Str(s@),
            SrcOwned::Path(p) => SrcView::Path(p@),
        }
    }
}

/// What is borrowed and can be had as an owned value.
pub trait Own {
    type Owned;

    fn own(&self) -> Self::Owned;
}

impl<'a> Own for Src<'a> {
    type Owned = SrcOwned;

    /// The same source, owned: a text stays the text, a path the path.
    fn own(&self) -> (owned: SrcOwned)
        ensures
            owned@ == self@,
    {
        match self {
            Self::Str(s) => SrcOwned::Str(String::from_str(s)),
            Self::Path(path) => SrcOwned::Path(String::from_str(path)),
        }
    }
}

/// this is minimal example of RunCtx implementation
#[derive(Debug)]
pub struct MockRunMeta<'a> {
    src: Src<'a>,
    files: Dest,
}

impl<'a> MockRunMeta<'a> {
    /// The context of a run that reads `src` and writes to `files`.
    pub fn new(src: Src<'a>, files: Dest) -> (meta: Self)
        ensures
            meta.source() == src@,
            meta.dest() == files@,
    {
        MockRunMeta { src, files }
    }

    /// The source that the run reads.
    pub closed spec fn source(&self) -> SrcView {
        self.src@
    }

    /// Where the run writes.
    pub closed spec fn dest(&self) -> DestView {
        self.files@
    }
}

impl<'a> SrcCtx for MockRunMeta<'a> {}

impl<'a> RunCtx for MockRunMeta<'a> {}

impl<'a> HasIn for MockRunMeta<'a> {
    type InInfo = SrcOwned;

    type InInfoRef = Src<'a>;

    /// The source of the run, which is always there.
    fn in_info(&self) -> (info: Option<&Src<'a>>)
        ensures
            info matches Some(src) && src@ == self.source(),
    {
        Some(&self.src)
    }

    /// The source of the run, owned.
    fn in_info_owned(&self) -> (info: Option<SrcOwned>)
        ensures
            info matches Some(src) && src@ == self.source(),
    {
        Some(self.src.own())
    }
}

impl<'a> HasOut for MockRunMeta<'a> {
    type OutInfo = Dest;

    type OutInfoRef = Dest;

    /// The output area of the run, which is always there.
    fn out_info(&self) -> (info: Option<&Dest>)
        ensures
            info matches Some(files) && files@ == self.dest(),
    {
        Some(&self.files)
    }

    /// A copy of the output area of the run.
    fn out_info_owned(&self) -> (info: Option<Dest>)
        ensures
            info matches Some(files) && files@ == self.dest(),
    {
        Some(self.files.clone())
    }
}

impl<'a> Ctx for MockRunMeta<'a> {
    const ROLE: &'static str = "mock orchestration";
}

/// The place at which a context without a source is refused: the line and
/// the column of the expression in this file that makes the error.
#[verifier::allow_in_spec]
pub fn lacking_place() -> Place
    returns
        (Place { file: "src/orchestrator.rs", line: 214, column: 19 }),
{
    Place { file: "src/orchestrator.rs", line: 214, column: 19 }
}

/// The source that a context gave, or `lacking` where it gave none.
pub fn source_of(info: Option<SrcOwned>, lacking: LlccError) -> (r: LlccB<SrcOwned>)
    ensures
        r == match info {
            Some(src) => B::<SrcOwned, LlccError>::X(src),
            None => B::<SrcOwned, LlccError>::Y(lacking),
        },
{
    match info {
        Some(src) => B::X(src),
        None => B::Y(lacking),
    }
}

/// What a run starts from: the source that `ctx` hands out, and a compiler
/// with an output area of its own, under a random UUID of version 4.
///
/// Whether `ctx` hands out a source is for `ctx` to say, and what comes
/// back here is what it said: its source, or, where it had none, the error
/// `LackOfContext`, raised at `lacking_place()`, with the role of the
/// context and, as `holder`, the name of the type that plays it.
pub fn post_process<R: SrcCtx>(ctx: R, holder: &'static str) -> (r: LlccB<
    (SrcOwned, LlccCompiler),
>) where R: HasIn<InInfo = SrcOwned>
    ensures
        match r {
            B::X((src, compiler)) => {
                &&& call_ensures(R::in_info_owned, (&ctx,), Some(src))
                &&& compiler.dest().prefix is None
                &&& compiler.dest().postfix is None
                &&& (compiler.dest().uuid >> 76) & 0xf == 4
                &&& (compiler.dest().uuid >> 62) & 0x3 == 2
            },
            B::Y(e) => {
                &&& call_ensures(R::in_info_owned, (&ctx,), None)
                &&& e == (LlccError::LackOfContext {
                    context_role: R::ROLE,
                    holder,
                    loc: lacking_place(),
                })
            },
        },
{
    let lacking = LlccError::lack_of_ctx::<R>(holder, lacking_place());
    match source_of(ctx.in_info_owned(), lacking) {
        B::X(src) => B::X((src, LlccCompiler::default())),
        B::Y(e) => B::Y(e),
    }
}

/// The context of a trial run on the text `src`: its files go to a
/// directory named `test`, a hyphen, and a random UUID of version 4.
pub fn run_fixture<'a>(src: &'a str) -> (meta: MockRunMeta<'a>)
    ensures
        meta.source() == SrcView::Str(src@),
        meta.dest().prefix == Some("test"@),
        meta.dest().postfix is None,
        (meta.dest().uuid >> 76) & 0xf == 4,
        (meta.dest().uuid >> 62) & 0x3 == 2,
{
    MockRunMeta {
        src: Src::Str(src),
        files: Dest::new(Some(String::from_str("test")), random_uuid(), None),
    }
}

} // verus!
