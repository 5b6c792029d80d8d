use vstd::prelude::*;
use vstd::utf8::{decode_utf8, valid_utf8};
use crate::software::{
    build_result_of, check_command_result, string_of, text_of, CSharpProjectBuilder, Invocation,
    ProcessOutcome, RustProjectBuilder, SoftwareProjectBuilder,
};
use crate::text::{trim_end, trimmed_end};

verus! {

/// Whether the hosted repository is visible to everyone.
#[derive(Clone, Copy, PartialEq, Eq, Debug, Structural)]
pub enum Visibility {
    Public,
    Private,
}

/// The command-line flag that selects a visibility.
pub open spec fn visibility_flag_spec(v: Visibility) -> Seq<char> {
    match v {
        Visibility::Public => "--public"@,
        Visibility::Private => "--private"@,
    }
}

pub fn visibility_flag(v: Visibility) -> (r: &'static str)
    ensures
        r@ == visibility_flag_spec(v),
{
    match v {
        Visibility::Public => "--public",
        Visibility::Private => "--private",
    }
}

/// The builder selected for a run: one variant per ecosystem.
pub enum SoftwareBuilder {
    Rust(RustProjectBuilder),
    CSharp(CSharpProjectBuilder),
}

impl SoftwareProjectBuilder for SoftwareBuilder {
    open spec fn spec_program(&self) -> Seq<char> {
        match self {
            SoftwareBuilder::Rust(b) => b.spec_program(),
            SoftwareBuilder::CSharp(b) => b.spec_program(),
        }
    }

    open spec fn spec_args(&self) -> Seq<Seq<char>> {
        match self {
            SoftwareBuilder::Rust(b) => b.spec_args(),
            SoftwareBuilder::CSharp(b) => b.spec_args(),
        }
    }

    open spec fn spec_ignore(&self) -> Seq<char> {
        match self {
            SoftwareBuilder::Rust(b) => b.spec_ignore(),
            SoftwareBuilder::CSharp(b) => b.spec_ignore(),
        }
    }

    fn create(&self) -> (r: Invocation) {
        match self {
            SoftwareBuilder::Rust(b) => b.create(),
            SoftwareBuilder::CSharp(b) => b.create(),
        }
    }

    fn ignore_str(&self) -> (r: &'static str) {
        match self {
            SoftwareBuilder::Rust(b) => b.ignore_str(),
            SoftwareBuilder::CSharp(b) => b.ignore_str(),
        }
    }
}

/// A validated configuration: the project's name, the repository's
/// visibility and the builder, if one was selected.
pub struct App {
    pub name: String,
    pub repo_visibility: Visibility,
    pub software_builder: Option<SoftwareBuilder>,
}

/// The parsed command line.
pub struct Args {
    pub csharp_project: Option<String>,
    pub rust_project: Option<String>,
    pub name: String,
    pub public: bool,
}

/// Why a run ended early.
#[derive(Clone, Copy, PartialEq, Eq, Debug, Structural)]
pub enum Fatal {
    ProjectDir,
    EnterProject,
    ToolStart,
    IgnoreFile,
    DocsDir,
    SoftwareDir,
    EnterSoftware,
    LeaveSoftware,
    Undecodable,
}

/// What the builder's creation command came to.
pub enum BuildStatus {
    Created,
    Failed(String),
    Unreadable,
    NotStarted,
}

/// The mathematical view of a `BuildStatus`.
pub enum BuildStatusView {
    Created,
    Failed(Seq<char>),
    Unreadable,
    NotStarted,
}

/// The step of a run whose action is pending: each stage waits for the
/// event that reports how its action went.
pub enum Stage {
    MakeProjectDir,
    EnterProjectDir,
    MakeReadme,
    WarnReadme,
    InitRepo,
    WriteIgnore,
    MakeDocs,
    MakeSoftwareDir,
    EnterSoftwareDir,
    CreateSoftware,
    LeaveSoftwareDir(BuildStatus),
    ReportBuild,
    CreateRemote,
    AddRemote,
    StageAll,
    RenameBranch,
    Commit,
    Push,
    Complete,
    Aborted(Fatal),
}

/// The mathematical view of a `Stage`.
pub enum StageView {
    MakeProjectDir,
    EnterProjectDir,
    MakeReadme,
    WarnReadme,
    InitRepo,
    WriteIgnore,
    MakeDocs,
    MakeSoftwareDir,
    EnterSoftwareDir,
    CreateSoftware,
    LeaveSoftwareDir(BuildStatusView),
    ReportBuild,
    CreateRemote,
    AddRemote,
    StageAll,
    RenameBranch,
    Commit,
    Push,
    Complete,
    Aborted(Fatal),
}

/// What the caller must do next.
pub enum Action {
    CreateDir(String),
    EnterDir(String),
    LeaveDir,
    CreateFile(String),
    WriteFile(String, String),
    Run(Invocation),
    Warn(String),
    Report(String),
    Abort(Fatal),
    Finish,
}

/// The mathematical view of an `Action`: paths and texts as character
/// sequences, an invocation as its program and arguments.
pub enum ActionView {
    CreateDir(Seq<char>),
    EnterDir(Seq<char>),
    LeaveDir,
    CreateFile(Seq<char>),
    WriteFile(Seq<char>, Seq<char>),
    Run(Seq<char>, Seq<Seq<char>>),
    Warn(Seq<char>),
    Report(Seq<char>),
    Abort(Fatal),
    Finish,
}

/// How the last action went: a file-system step succeeded or failed; an
/// external program ran to its end, or could not be started (`Failed`).
pub enum Event {
    Done,
    Failed,
    Ran(ProcessOutcome),
}

/// The mathematical view of an `Event`: a finished program as its exit
/// status and the bytes of its two streams.
pub enum EventView {
    Done,
    Failed,
    Ran(bool, Seq<u8>, Seq<u8>),
}

impl View for BuildStatus {
    type V = BuildStatusView;

    open spec fn view(&self) -> BuildStatusView {
        match self {
            BuildStatus::Created => BuildStatusView::Created,
            BuildStatus::Failed(d) => BuildStatusView::Failed(d@),
            BuildStatus::Unreadable => BuildStatusView::Unreadable,
            BuildStatus::NotStarted => BuildStatusView::NotStarted,
        }
    }
}

impl View for Stage {
    type V = StageView;

    open spec fn view(&self) -> StageView {
        match self {
            Stage::MakeProjectDir => StageView::MakeProjectDir,
            Stage::EnterProjectDir => StageView::EnterProjectDir,
            Stage::MakeReadme => StageView::MakeReadme,
            Stage::WarnReadme => StageView::WarnReadme,
            Stage::InitRepo => StageView::InitRepo,
            Stage::WriteIgnore => StageView::WriteIgnore,
            Stage::MakeDocs => StageView::MakeDocs,
            Stage::MakeSoftwareDir => StageView::MakeSoftwareDir,
            Stage::EnterSoftwareDir => StageView::EnterSoftwareDir,
            Stage::CreateSoftware => StageView::CreateSoftware,
            Stage::LeaveSoftwareDir(s) => StageView::LeaveSoftwareDir(s@),
            Stage::ReportBuild => StageView::ReportBuild,
            Stage::CreateRemote => StageView::CreateRemote,
            Stage::AddRemote => StageView::AddRemote,
            Stage::StageAll => StageView::StageAll,
            Stage::RenameBranch => StageView::RenameBranch,
            Stage::Commit => StageView::Commit,
            Stage::Push => StageView::Push,
            Stage::Complete => StageView::Complete,
            Stage::Aborted(f) => StageView::Aborted(*f),
        }
    }
}

impl View for Action {
    type V = ActionView;

    open spec fn view(&self) -> ActionView {
        match self {
            Action::CreateDir(p) => ActionView::CreateDir(p@),
            Action::EnterDir(p) => ActionView::EnterDir(p@),
            Action::LeaveDir => ActionView::LeaveDir,
            Action::CreateFile(p) => ActionView::CreateFile(p@),
            Action::WriteFile(p, c) => ActionView::WriteFile(p@, c@),
            Action::Run(i) => ActionView::Run(i.program_view(), i.args_view()),
            Action::Warn(m) => ActionView::Warn(m@),
            Action::Report(m) => ActionView::Report(m@),
            Action::Abort(f) => ActionView::Abort(*f),
            Action::Finish => ActionView::Finish,
        }
    }
}

impl View for Event {
    type V = EventView;

    open spec fn view(&self) -> EventView {
        match self {
            Event::Done => EventView::Done,
            Event::Failed => EventView::Failed,
            Event::Ran(o) => EventView::Ran(o.success, o.stdout@, o.stderr@),
        }
    }
}


impl App {
    /// The invocation that creates the hosted repository.
    pub open spec fn remote_action(&self) -> ActionView {
        ActionView::Run(
            "gh"@,
            seq!["repo"@, "create"@, visibility_flag_spec(self.repo_visibility), self.name@],
        )
    }

    pub open spec fn to_remote(&self) -> (StageView, ActionView) {
        (StageView::CreateRemote, self.remote_action())
    }
}

pub open spec fn git_action(args: Seq<Seq<char>>) -> ActionView {
    ActionView::Run("git"@, args)
}

pub open spec fn abort_with(f: Fatal) -> (StageView, ActionView) {
    (StageView::Aborted(f), ActionView::Abort(f))
}

/// The location of the remote given the hosting tool's identifier.
pub open spec fn remote_url_spec(id: Seq<char>) -> Seq<char> {
    id + ".git"@
}

/// The status recorded for a creation command that ran.
pub open spec fn status_of(success: bool, stderr: Seq<u8>) -> BuildStatusView {
    match build_result_of(success, stderr) {
        Some(Ok(())) => BuildStatusView::Created,
        Some(Err(d)) => BuildStatusView::Failed(d),
        None => BuildStatusView::Unreadable,
    }
}

/// The next stage and action of a run, given the pending stage and the event
/// that reports how its action went.
///
/// Failures of the file-system steps end the run, except a README that could
/// not be created, which only warns. A failed creation command is reported
/// after the ascent from the software subdirectory, and the run goes on. The
/// outcomes of the final version-control steps are not inspected. The ignore
/// file is written only when a builder is selected, since only a builder has
/// ignore text to give.
pub open spec fn next(app: &App, s: StageView, e: EventView) -> (StageView, ActionView) {
    match s {
        StageView::MakeProjectDir => if e is Failed {
            abort_with(Fatal::ProjectDir)
        } else {
            (StageView::EnterProjectDir, ActionView::EnterDir(app.name@))
        },
        StageView::EnterProjectDir => if e is Failed {
            abort_with(Fatal::EnterProject)
        } else {
            (StageView::MakeReadme, ActionView::CreateFile("README.md"@))
        },
        StageView::MakeReadme => if e is Failed {
            (StageView::WarnReadme, ActionView::Warn("Unable to create README.md."@))
        } else {
            (StageView::InitRepo, git_action(seq!["init"@]))
        },
        StageView::WarnReadme => (StageView::InitRepo, git_action(seq!["init"@])),
        StageView::InitRepo => if e is Ran {
            match app.software_builder {
                Some(b) => (StageView::WriteIgnore, ActionView::WriteFile(".gitignore"@, b.spec_ignore())),
                None => (StageView::MakeDocs, ActionView::CreateDir("docs"@)),
            }
        } else {
            abort_with(Fatal::ToolStart)
        },
        StageView::WriteIgnore => if e is Failed {
            abort_with(Fatal::IgnoreFile)
        } else {
            (StageView::MakeDocs, ActionView::CreateDir("docs"@))
        },
        StageView::MakeDocs => if e is Failed {
            abort_with(Fatal::DocsDir)
        } else if app.software_builder is Some {
            (StageView::MakeSoftwareDir, ActionView::CreateDir("software"@))
        } else {
            app.to_remote()
        },
        StageView::MakeSoftwareDir => if e is Failed {
            abort_with(Fatal::SoftwareDir)
        } else {
            (StageView::EnterSoftwareDir, ActionView::EnterDir("software"@))
        },
        StageView::EnterSoftwareDir => if e is Failed {
            abort_with(Fatal::EnterSoftware)
        } else {
            match app.software_builder {
                Some(b) => (StageView::CreateSoftware, ActionView::Run(b.spec_program(), b.spec_args())),
                None => abort_with(Fatal::EnterSoftware),
            }
        },
        StageView::CreateSoftware => match e {
            EventView::Ran(success, _, err) => (StageView::LeaveSoftwareDir(status_of(success, err)), ActionView::LeaveDir),
            _ => (StageView::LeaveSoftwareDir(BuildStatusView::NotStarted), ActionView::LeaveDir),
        },
        StageView::LeaveSoftwareDir(st) => if e is Failed {
            abort_with(Fatal::LeaveSoftware)
        } else {
            match st {
                BuildStatusView::Created => app.to_remote(),
                BuildStatusView::Failed(d) => (StageView::ReportBuild, ActionView::Report(d)),
                BuildStatusView::Unreadable => abort_with(Fatal::Undecodable),
                BuildStatusView::NotStarted => abort_with(Fatal::ToolStart),
            }
        },
        StageView::ReportBuild => app.to_remote(),
        StageView::CreateRemote => match e {
            EventView::Ran(_, out, _) => if valid_utf8(out) {
                (StageView::AddRemote, git_action(seq!["remote"@, "add"@, "origin"@,
                    remote_url_spec(trimmed_end(decode_utf8(out)))]))
            } else {
                abort_with(Fatal::Undecodable)
            },
            _ => abort_with(Fatal::ToolStart),
        },
        StageView::AddRemote => if e is Ran {
            (StageView::StageAll, git_action(seq!["add"@, "."@]))
        } else {
            abort_with(Fatal::ToolStart)
        },
        StageView::StageAll => if e is Ran {
            (StageView::RenameBranch, git_action(seq!["branch"@, "-m"@, "main"@]))
        } else {
            abort_with(Fatal::ToolStart)
        },
        StageView::RenameBranch => if e is Ran {
            (StageView::Commit, git_action(seq!["commit"@, "-m"@, "Project initialisation"@]))
        } else {
            abort_with(Fatal::ToolStart)
        },
        StageView::Commit => if e is Ran {
            (StageView::Push, git_action(seq!["push"@, "-u"@, "origin"@, "main"@]))
        } else {
            abort_with(Fatal::ToolStart)
        },
        StageView::Push => if e is Ran {
            (StageView::Complete, ActionView::Finish)
        } else {
            abort_with(Fatal::ToolStart)
        },
        StageView::Complete => (StageView::Complete, ActionView::Finish),
        StageView::Aborted(f) => abort_with(f),
    }
}

/// The first stage and action of every run.
pub open spec fn start_spec(app: &App) -> (StageView, ActionView) {
    (StageView::MakeProjectDir, ActionView::CreateDir(app.name@))
}

/// The stage reached and the actions issued when `events` answer the
/// actions of a run that waits in stage `s`.
pub open spec fn run_from(app: &App, s: StageView, events: Seq<EventView>) -> (StageView, Seq<ActionView>)
    decreases events.len(),
{
    if events.len() == 0 {
        (s, Seq::empty())
    } else {
        let (s1, a) = next(app, s, events[0]);
        let (sf, acts) = run_from(app, s1, events.drop_first());
        (sf, seq![a] + acts)
    }
}

/// All actions of a run from its start, the first one included.
pub open spec fn run_actions(app: &App, events: Seq<EventView>) -> Seq<ActionView> {
    seq![start_spec(app).1] + run_from(app, start_spec(app).0, events).1
}


/// Builds the remote's location: the hosting tool's identifier with `.git`.
pub fn remote_url(id: &str) -> (r: String)
    ensures
        r@ == remote_url_spec(id@),
{
    let mut r = String::from_str(id);
    r.append(".git");
    r
}

fn run_git(args: Vec<String>) -> (r: Action)
    ensures
        r@ == git_action(crate::software::str_views(args@)),
{
    Action::Run(Invocation { program: string_of("git"), args })
}

fn git_init() -> (r: Action)
    ensures
        r@ == git_action(seq!["init"@]),
{
    let args = vec![string_of("init")];
    assert(crate::software::str_views(args@) =~= seq!["init"@]);
    run_git(args)
}

fn abort(f: Fatal) -> (r: (Stage, Action))
    ensures
        (r.0@, r.1@) == abort_with(f),
{
    (Stage::Aborted(f), Action::Abort(f))
}

/// Records what the creation command came to.
fn build_status(o: &ProcessOutcome) -> (r: BuildStatus)
    ensures
        r@ == status_of(o.success, o.stderr@),
{
    match check_command_result(o) {
        Some(Ok(())) => BuildStatus::Created,
        Some(Err(d)) => BuildStatus::Failed(d),
        None => BuildStatus::Unreadable,
    }
}

impl App {
    /// Resolves the parsed command line: a template for the managed runtime
    /// wins over one for the native toolchain; neither selects no builder.
    pub fn new(args: Args) -> (r: App)
        ensures
            r.name@ == args.name@,
            r.repo_visibility == (if args.public { Visibility::Public } else { Visibility::Private }),
            match (args.csharp_project, args.rust_project) {
                (Some(t), _) => r.software_builder matches Some(SoftwareBuilder::CSharp(b))
                    && b.name@ == args.name@ && b.template@ == t@,
                (None, Some(t)) => r.software_builder matches Some(SoftwareBuilder::Rust(b))
                    && b.name@ == args.name@ && b.template@ == t@,
                (None, None) => r.software_builder is None,
            },
    {
        let software_builder = match (args.csharp_project, args.rust_project) {
            (Some(template), _) => Some(
                SoftwareBuilder::CSharp(CSharpProjectBuilder { name: args.name.clone(), template }),
            ),
            (None, Some(template)) => Some(
                SoftwareBuilder::Rust(RustProjectBuilder { name: args.name.clone(), template }),
            ),
            (None, None) => None,
        };
        App {
            name: args.name,
            software_builder,
            repo_visibility: if args.public { Visibility::Public } else { Visibility::Private },
        }
    }

    /// The action that starts a run, and the stage that waits for its outcome.
    pub fn start(&self) -> (r: (Stage, Action))
        ensures
            (r.0@, r.1@) == start_spec(self),
    {
        (Stage::MakeProjectDir, Action::CreateDir(self.name.clone()))
    }

    fn remote(&self) -> (r: (Stage, Action))
        ensures
            (r.0@, r.1@) == self.to_remote(),
    {
        let args = vec![
            string_of("repo"),
            string_of("create"),
            string_of(visibility_flag(self.repo_visibility)),
            self.name.clone(),
        ];
        let r = Action::Run(Invocation { program: string_of("gh"), args });
        assert(r@ == self.remote_action()) by {
            assert(crate::software::str_views(args@) =~= seq!["repo"@, "create"@,
                visibility_flag_spec(self.repo_visibility), self.name@]);
        }
        (Stage::CreateRemote, r)
    }

    fn git_step(next_stage: Stage, args: Vec<String>, e: &Event) -> (r: (Stage, Action))
        ensures
            e is Ran ==> (r.0@, r.1@) == (next_stage@, git_action(crate::software::str_views(args@))),
            !(e is Ran) ==> (r.0@, r.1@) == abort_with(Fatal::ToolStart),
    {
        match e {
            Event::Ran(_) => (next_stage, run_git(args)),
            _ => abort(Fatal::ToolStart),
        }
    }

    /// Decides what follows once `event` reports how the action of `stage`
    /// went: the stage that waits next, and the action to perform.
    pub fn step(&self, stage: &Stage, event: &Event) -> (r: (Stage, Action))
        ensures
            (r.0@, r.1@) == next(self, stage@, event@),
    {
        let failed = match event {
            Event::Failed => true,
            _ => false,
        };
        match stage {
            Stage::MakeProjectDir => if failed {
                abort(Fatal::ProjectDir)
            } else {
                (Stage::EnterProjectDir, Action::EnterDir(self.name.clone()))
            },
            Stage::EnterProjectDir => if failed {
                abort(Fatal::EnterProject)
            } else {
                (Stage::MakeReadme, Action::CreateFile(string_of("README.md")))
            },
            Stage::MakeReadme => if failed {
                (Stage::WarnReadme, Action::Warn(string_of("Unable to create README.md.")))
            } else {
                (Stage::InitRepo, git_init())
            },
            Stage::WarnReadme => (Stage::InitRepo, git_init()),
            Stage::InitRepo => match event {
                Event::Ran(_) => match &self.software_builder {
                    Some(b) => (
                        Stage::WriteIgnore,
                        Action::WriteFile(string_of(".gitignore"), string_of(b.ignore_str())),
                    ),
                    None => (Stage::MakeDocs, Action::CreateDir(string_of("docs"))),
                },
                _ => abort(Fatal::ToolStart),
            },
            Stage::WriteIgnore => if failed {
                abort(Fatal::IgnoreFile)
            } else {
                (Stage::MakeDocs, Action::CreateDir(string_of("docs")))
            },
            Stage::MakeDocs => if failed {
                abort(Fatal::DocsDir)
            } else if self.software_builder.is_some() {
                (Stage::MakeSoftwareDir, Action::CreateDir(string_of("software")))
            } else {
                self.remote()
            },
            Stage::MakeSoftwareDir => if failed {
                abort(Fatal::SoftwareDir)
            } else {
                (Stage::EnterSoftwareDir, Action::EnterDir(string_of("software")))
            },
            Stage::EnterSoftwareDir => if failed {
                abort(Fatal::EnterSoftware)
            } else {
                match &self.software_builder {
                    Some(b) => (Stage::CreateSoftware, Action::Run(b.create())),
                    None => abort(Fatal::EnterSoftware),
                }
            },
            Stage::CreateSoftware => match event {
                Event::Ran(o) => (Stage::LeaveSoftwareDir(build_status(o)), Action::LeaveDir),
                _ => (Stage::LeaveSoftwareDir(BuildStatus::NotStarted), Action::LeaveDir),
            },
            Stage::LeaveSoftwareDir(st) => if failed {
                abort(Fatal::LeaveSoftware)
            } else {
                match st {
                    BuildStatus::Created => self.remote(),
                    BuildStatus::Failed(d) => (Stage::ReportBuild, Action::Report(d.clone())),
                    BuildStatus::Unreadable => abort(Fatal::Undecodable),
                    BuildStatus::NotStarted => abort(Fatal::ToolStart),
                }
            },
            Stage::ReportBuild => self.remote(),
            Stage::CreateRemote => match event {
                Event::Ran(o) => match text_of(&o.stdout) {
                    Some(out) => {
                        let id = trim_end(out.as_str());
                        let args = vec![
                            string_of("remote"),
                            string_of("add"),
                            string_of("origin"),
                            remote_url(id.as_str()),
                        ];
                        assert(crate::software::str_views(args@) =~= seq!["remote"@, "add"@,
                            "origin"@, remote_url_spec(trimmed_end(decode_utf8(o.stdout@)))]);
                        (Stage::AddRemote, run_git(args))
                    },
                    None => abort(Fatal::Undecodable),
                },
                _ => abort(Fatal::ToolStart),
            },
            Stage::AddRemote => {
                let args = vec![string_of("add"), string_of(".")];
                assert(crate::software::str_views(args@) =~= seq!["add"@, "."@]);
                App::git_step(Stage::StageAll, args, event)
            },
            Stage::StageAll => {
                let args = vec![string_of("branch"), string_of("-m"), string_of("main")];
                assert(crate::software::str_views(args@) =~= seq!["branch"@, "-m"@, "main"@]);
                App::git_step(Stage::RenameBranch, args, event)
            },
            Stage::RenameBranch => {
                let args = vec![string_of("commit"), string_of("-m"), string_of("Project initialisation")];
                assert(crate::software::str_views(args@) =~= seq!["commit"@, "-m"@,
                    "Project initialisation"@]);
                App::git_step(Stage::Commit, args, event)
            },
            Stage::Commit => {
                let args = vec![string_of("push"), string_of("-u"), string_of("origin"), string_of("main")];
                assert(crate::software::str_views(args@) =~= seq!["push"@, "-u"@, "origin"@, "main"@]);
                App::git_step(Stage::Push, args, event)
            },
            Stage::Push => match event {
                Event::Ran(_) => (Stage::Complete, Action::Finish),
                _ => abort(Fatal::ToolStart),
            },
            Stage::Complete => (Stage::Complete, Action::Finish),
            Stage::Aborted(f) => abort(*f),
        }
    }
}

impl From<Args> for App {
    fn from(args: Args) -> (r: App) {
        App::new(args)
    }
}

impl vstd::std_specs::convert::FromSpecImpl<Args> for App {
    open spec fn obeys_from_spec() -> bool {
        false
    }

    open spec fn from_spec(v: Args) -> App {
        arbitrary()
    }
}

} // verus!
