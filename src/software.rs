use vstd::prelude::*;
use vstd::utf8::{decode_utf8, valid_utf8};

verus! {

/// What running a builder's creation command came to: `Ok` on a zero exit,
/// otherwise the tool's diagnostic text.
pub type SoftwareBuildResult = Result<(), String>;

/// A program to run in the current directory, with its arguments in order.
pub struct Invocation {
    pub program: String,
    pub args: Vec<String>,
}

/// The views of a sequence of strings.
pub open spec fn str_views(v: Seq<String>) -> Seq<Seq<char>> {
    v.map_values(|s: String| s@)
}

impl Invocation {
    pub open spec fn program_view(&self) -> Seq<char> {
        self.program@
    }

    pub open spec fn args_view(&self) -> Seq<Seq<char>> {
        str_views(self.args@)
    }
}

/// Exit status and captured streams of one finished external program.
pub struct ProcessOutcome {
    pub success: bool,
    pub stdout: Vec<u8>,
    pub stderr: Vec<u8>,
}

/// Relies on String::from_utf8: the bytes are taken as text exactly when they
/// are valid UTF-8, and then decoded.
#[verifier::external_body]
pub(crate) fn text_of(b: &Vec<u8>) -> (r: Option<String>)
    ensures
        r is Some <==> valid_utf8(b@),
        r is Some ==> r->Some_0@ == decode_utf8(b@),
{
    String::from_utf8(b.clone()).ok()
}

/// The result of a creation command that ran: `None` where its diagnostic
/// text is not valid UTF-8, which ends the run.
pub open spec fn build_result_of(success: bool, stderr: Seq<u8>) -> Option<Result<(), Seq<char>>> {
    if success {
        Some(Ok(()))
    } else if valid_utf8(stderr) {
        Some(Err(decode_utf8(stderr)))
    } else {
        None
    }
}

/// Interprets a finished creation command: a zero exit is success whatever
/// was printed; otherwise the standard error, as text, is the failure.
pub fn check_command_result(output: &ProcessOutcome) -> (r: Option<SoftwareBuildResult>)
    ensures
        match (r, build_result_of(output.success, output.stderr@)) {
            (None, None) => true,
            (Some(Ok(())), Some(Ok(()))) => true,
            (Some(Err(d)), Some(Err(e))) => d@ == e,
            _ => false,
        },
{
    if output.success {
        Some(Ok(()))
    } else {
        match text_of(&output.stderr) {
            Some(d) => Some(Err(d)),
            None => None,
        }
    }
}

/// One ecosystem's way of creating a project skeleton in the current directory.
pub trait SoftwareProjectBuilder {
    /// The program that creates the skeleton.
    spec fn spec_program(&self) -> Seq<char>;

    /// Its arguments.
    spec fn spec_args(&self) -> Seq<Seq<char>>;

    /// The paths that this ecosystem's tooling generates, one per line.
    spec fn spec_ignore(&self) -> Seq<char>;

    /// The command that creates the skeleton.
    fn create(&self) -> (r: Invocation)
        ensures
            r.program_view() == self.spec_program(),
            r.args_view() == self.spec_args(),
    ;

    /// The text of the ignore file for this ecosystem.
    fn ignore_str(&self) -> (r: &'static str)
        ensures
            r@ == self.spec_ignore(),
    ;
}

/// A project of the native toolchain, made by `cargo new --<template> <name>`.
pub struct RustProjectBuilder {
    pub name: String,
    pub template: String,
}

/// A project of the managed runtime, made by `dotnet new <template> -o <name>`.
pub struct CSharpProjectBuilder {
    pub name: String,
    pub template: String,
}

/// The arguments of `cargo new` for a template and a name.
pub open spec fn rust_args(template: Seq<char>, name: Seq<char>) -> Seq<Seq<char>> {
    seq!["new"@, "--"@ + template, name]
}

/// The arguments of `dotnet new` for a template and a name.
pub open spec fn csharp_args(template: Seq<char>, name: Seq<char>) -> Seq<Seq<char>> {
    seq!["new"@, template, "-o"@, name]
}

/// An owned copy of a string slice.
pub(crate) fn string_of(s: &str) -> (r: String)
    ensures
        r@ == s@,
{
    String::from_str(s)
}

impl SoftwareProjectBuilder for RustProjectBuilder {
    open spec fn spec_program(&self) -> Seq<char> {
        "cargo"@
    }

    open spec fn spec_args(&self) -> Seq<Seq<char>> {
        rust_args(self.template@, self.name@)
    }

    open spec fn spec_ignore(&self) -> Seq<char> {
        "target"@
    }

    fn create(&self) -> (r: Invocation) {
        let mut project_type = string_of("--");
        project_type.append(self.template.as_str());
        let args = vec![string_of("new"), project_type, self.name.clone()];
        let r = Invocation { program: string_of("cargo"), args };
        assert(r.args_view() =~= self.spec_args());
        r
    }

    fn ignore_str(&self) -> (r: &'static str) {
        "target"
    }
}

impl SoftwareProjectBuilder for CSharpProjectBuilder {
    open spec fn spec_program(&self) -> Seq<char> {
        "dotnet"@
    }

    open spec fn spec_args(&self) -> Seq<Seq<char>> {
        csharp_args(self.template@, self.name@)
    }

    open spec fn spec_ignore(&self) -> Seq<char> {
        "bin\nobj"@
    }

    fn create(&self) -> (r: Invocation) {
        let args = vec![string_of("new"), self.template.clone(), string_of("-o"), self.name.clone()];
        let r = Invocation { program: string_of("dotnet"), args };
        assert(r.args_view() =~= self.spec_args());
        r
    }

    fn ignore_str(&self) -> (r: &'static str) {
        "bin\nobj"
    }
}

} // verus!
