//! What the library asks its caller to do on the host, and what the caller
//! reports back.
//!
//! Nothing here runs a program or touches a file. A [`Pipeline`] names the
//! programs to run and a [`FileWrite`] the file to write; the caller performs
//! them and answers with a [`CommandOutput`] or a flag.

use vstd::prelude::*;

verus! {

/// Permission bits that let the owning account read and write a file and
/// keep everyone else out.
pub const OWNER_ONLY_MODE: u32 = 0o600;

/// One program with its arguments.
#[derive(Debug, Clone, PartialEq, Eq)]
pub struct Invocation {
    pub program: String,
    pub args: Vec<String>,
}

/// An [`Invocation`] as plain text.
pub struct InvocationView {
    pub program: Seq<char>,
    pub args: Seq<Seq<char>>,
}

impl View for Invocation {
    type V = InvocationView;

    open spec fn view(&self) -> InvocationView {
        InvocationView { program: self.program@, args: self.args.deep_view() }
    }
}

impl Invocation {
    /// The program `name`, so far without arguments.
    pub fn program(name: &str) -> (inv: Invocation)
        ensures
            inv@ == (InvocationView { program: name@, args: Seq::empty() }),
    {
        let inv = Invocation { program: name.to_owned(), args: Vec::new() };
        assert(inv.args.deep_view() =~= Seq::<Seq<char>>::empty());
        inv
    }

    /// The same invocation with `value` as one more argument at the end.
    pub fn arg(self, value: &str) -> (inv: Invocation)
        ensures
            inv@ == (InvocationView { program: self@.program, args: self@.args.push(value@) }),
    {
        let mut args = self.args;
        let ghost before = args.deep_view();
        args.push(value.to_owned());
        assert(args.deep_view() =~= before.push(value@));
        Invocation { program: self.program, args }
    }
}

/// Programs run one after another, each reading what the one before it
/// wrote. The first reads `input`, or nothing where there is none.
#[derive(Debug, Clone, PartialEq, Eq)]
pub struct Pipeline {
    pub stages: Vec<Invocation>,
    pub input: Option<String>,
}

/// A [`Pipeline`] as plain text.
pub struct PipelineView {
    pub stages: Seq<InvocationView>,
    pub input: Option<Seq<char>>,
}

impl View for Pipeline {
    type V = PipelineView;

    open spec fn view(&self) -> PipelineView {
        PipelineView {
            stages: Seq::new(self.stages@.len(), |i: int| self.stages@[i]@),
            input: match self.input {
                Some(text) => Some(text@),
                None => None,
            },
        }
    }
}

/// The pipeline of the one program `program` run with `args` and no input.
pub open spec fn single(program: Seq<char>, args: Seq<Seq<char>>) -> PipelineView {
    PipelineView { stages: seq![InvocationView { program, args }], input: None }
}

impl Pipeline {
    /// The pipeline that runs `first` alone, with no input.
    pub fn of(first: Invocation) -> (p: Pipeline)
        ensures
            p@ == (PipelineView { stages: seq![first@], input: None }),
    {
        let mut stages: Vec<Invocation> = Vec::new();
        stages.push(first);
        let p = Pipeline { stages, input: None };
        assert(p@.stages =~= seq![first@]);
        p
    }

    /// The same pipeline with `next` reading the output of its last stage.
    pub fn pipe(self, next: Invocation) -> (p: Pipeline)
        ensures
            p@ == (PipelineView { stages: self@.stages.push(next@), input: self@.input }),
    {
        let mut stages = self.stages;
        let ghost before = self@.stages;
        stages.push(next);
        let p = Pipeline { stages, input: self.input };
        assert(p@.stages =~= before.push(next@));
        p
    }

    /// The same pipeline with `text` as the input of its first stage.
    pub fn fed(self, text: String) -> (p: Pipeline)
        ensures
            p@ == (PipelineView { stages: self@.stages, input: Some(text@) }),
    {
        let p = Pipeline { stages: self.stages, input: Some(text) };
        assert(p@.stages =~= self@.stages);
        p
    }
}

/// How a pipeline ended, as reported by whoever ran it: the exit status of
/// its last stage, absent where a signal ended it, and what that stage wrote.
#[derive(Debug, Clone, PartialEq, Eq)]
pub struct CommandOutput {
    pub exit_code: Option<i32>,
    pub stdout: String,
    pub stderr: String,
}

/// A [`CommandOutput`] as plain text.
pub struct CommandOutputView {
    pub exit_code: Option<i32>,
    pub stdout: Seq<char>,
    pub stderr: Seq<char>,
}

impl View for CommandOutput {
    type V = CommandOutputView;

    open spec fn view(&self) -> CommandOutputView {
        CommandOutputView {
            exit_code: self.exit_code,
            stdout: self.stdout@,
            stderr: self.stderr@,
        }
    }
}

impl CommandOutputView {
    /// A command succeeded when it exited with status zero.
    pub open spec fn succeeded(self) -> bool {
        self.exit_code == Some(0i32)
    }
}

impl CommandOutput {
    /// Whether the command exited with status zero.
    pub fn succeeded(&self) -> (ok: bool)
        ensures
            ok == self@.succeeded(),
    {
        match self.exit_code {
            Some(code) => code == 0,
            None => false,
        }
    }
}

/// A file to create or replace, with the permission bits it must carry from
/// the moment it exists.
#[derive(Debug, Clone, PartialEq, Eq)]
pub struct FileWrite {
    pub path: String,
    pub contents: String,
    pub mode: u32,
}

/// A [`FileWrite`] as plain text.
pub struct FileWriteView {
    pub path: Seq<char>,
    pub contents: Seq<char>,
    pub mode: u32,
}

impl View for FileWrite {
    type V = FileWriteView;

    open spec fn view(&self) -> FileWriteView {
        FileWriteView { path: self.path@, contents: self.contents@, mode: self.mode }
    }
}

impl FileWrite {
    /// The request to write `contents` to `path`, readable and writable by
    /// the owning account alone.
    pub fn owner_only(path: String, contents: String) -> (w: FileWrite)
        ensures
            w@ == (FileWriteView { path: path@, contents: contents@, mode: OWNER_ONLY_MODE }),
    {
        FileWrite { path, contents, mode: OWNER_ONLY_MODE }
    }
}

} // verus!
