use project_builder::app::{remote_url, visibility_flag, Action, App, Args, Event, Fatal, SoftwareBuilder, Stage, Visibility};
use project_builder::software::{
    check_command_result, CSharpProjectBuilder, ProcessOutcome, RustProjectBuilder,
    SoftwareProjectBuilder,
};
use project_builder::text::trim_end;

fn describe(a: &Action) -> String {
    match a {
        Action::CreateDir(p) => format!("mkdir {}", p),
        Action::EnterDir(p) => format!("cd {}", p),
        Action::LeaveDir => "cd ..".to_string(),
        Action::CreateFile(p) => format!("touch {}", p),
        Action::WriteFile(p, c) => format!("write {} {:?}", p, c),
        Action::Run(i) => format!("{} {}", i.program, i.args.join(" ")),
        Action::Warn(m) => format!("warn {}", m),
        Action::Report(m) => format!("report {}", m),
        Action::Abort(f) => format!("abort {:?}", f),
        Action::Finish => "finish".to_string(),
    }
}

fn ran(success: bool, stdout: &[u8], stderr: &[u8]) -> Event {
    Event::Ran(ProcessOutcome { success, stdout: stdout.to_vec(), stderr: stderr.to_vec() })
}

/// Drives a run: `answer` gives the event for each action.
fn drive(app: &App, mut answer: impl FnMut(&Action) -> Event) -> Vec<String> {
    let (mut stage, mut action) = app.start();
    let mut log = vec![describe(&action)];
    for _ in 0..100 {
        if matches!(action, Action::Finish | Action::Abort(_)) {
            break;
        }
        let e = answer(&action);
        let (s, a) = app.step(&stage, &e);
        stage = s;
        action = a;
        log.push(describe(&action));
    }
    log
}

fn all_succeed(remote: &'static [u8]) -> impl FnMut(&Action) -> Event {
    move |a: &Action| match a {
        Action::Run(i) if i.program == "gh" => ran(true, remote, b""),
        Action::Run(_) => ran(true, b"", b""),
        _ => Event::Done,
    }
}

fn args(name: &str, cs: Option<&str>, rs: Option<&str>, public: bool) -> Args {
    Args {
        csharp_project: cs.map(|s| s.to_string()),
        rust_project: rs.map(|s| s.to_string()),
        name: name.to_string(),
        public,
    }
}

#[test]
fn scenario_demo_without_builder() {
    let app = App::new(args("demo", None, None, false));
    let log = drive(&app, all_succeed(b"https://example.com/me/demo\n"));
    assert_eq!(
        log,
        vec![
            "mkdir demo",
            "cd demo",
            "touch README.md",
            "git init",
            "mkdir docs",
            "gh repo create --private demo",
            "git remote add origin https://example.com/me/demo.git",
            "git add .",
            "git branch -m main",
            "git commit -m Project initialisation",
            "git push -u origin main",
            "finish",
        ]
    );
}

#[test]
fn scenario_native_library_project() {
    let app = App::new(args("proj", None, Some("lib"), true));
    let log = drive(&app, all_succeed(b"https://example.com/me/proj"));
    assert_eq!(
        log[..12].to_vec(),
        vec![
            "mkdir proj",
            "cd proj",
            "touch README.md",
            "git init",
            "write .gitignore \"target\"",
            "mkdir docs",
            "mkdir software",
            "cd software",
            "cargo new --lib proj",
            "cd ..",
            "gh repo create --public proj",
            "git remote add origin https://example.com/me/proj.git",
        ]
    );
    assert_eq!(log.last().unwrap(), "finish");
}

#[test]
fn managed_runtime_project_uses_output_flag() {
    let app = App::new(args("svc", Some("console"), None, false));
    let log = drive(&app, all_succeed(b"id"));
    assert!(log.contains(&"write .gitignore \"bin\\nobj\"".to_string()));
    assert!(log.contains(&"dotnet new console -o svc".to_string()));
}

#[test]
fn managed_runtime_selection_wins() {
    let app = App::new(args("x", Some("web"), Some("bin"), false));
    assert!(matches!(app.software_builder, Some(SoftwareBuilder::CSharp(_))));
    assert_eq!(app.repo_visibility, Visibility::Private);
    let app: App = args("x", None, Some("bin"), true).into();
    assert!(matches!(app.software_builder, Some(SoftwareBuilder::Rust(_))));
    assert_eq!(app.repo_visibility, Visibility::Public);
}

#[test]
fn remote_add_uses_trimmed_identifier() {
    let app = App::new(args("repo", None, None, false));
    let (s, a) = app.step(&Stage::CreateRemote, &ran(true, b"https://example.com/user/repo \n", b""));
    assert!(matches!(s, Stage::AddRemote));
    assert_eq!(describe(&a), "git remote add origin https://example.com/user/repo.git");
    assert_eq!(remote_url("https://example.com/user/repo"), "https://example.com/user/repo.git");
}

#[test]
fn failed_build_is_reported_and_run_continues() {
    let app = App::new(args("p", None, Some("bin"), false));
    let log = drive(&app, |a: &Action| match a {
        Action::Run(i) if i.program == "cargo" => ran(false, b"", b"error: exists"),
        Action::Run(i) if i.program == "gh" => ran(true, b"u", b""),
        Action::Run(_) => ran(true, b"", b""),
        _ => Event::Done,
    });
    let i = log.iter().position(|l| l == "cargo new --bin p").unwrap();
    assert_eq!(log[i + 1], "cd ..");
    assert_eq!(log[i + 2], "report error: exists");
    assert_eq!(log[i + 3], "gh repo create --private p");
    assert_eq!(log.last().unwrap(), "finish");
}

#[test]
fn builder_that_cannot_start_ascends_then_aborts() {
    let app = App::new(args("p", None, Some("bin"), false));
    let log = drive(&app, |a: &Action| match a {
        Action::Run(i) if i.program == "cargo" => Event::Failed,
        Action::Run(_) => ran(true, b"", b""),
        _ => Event::Done,
    });
    let n = log.len();
    assert_eq!(log[n - 2], "cd ..");
    assert_eq!(log[n - 1], "abort ToolStart");
}

#[test]
fn unreadable_diagnostic_aborts_after_ascending() {
    let app = App::new(args("p", None, Some("bin"), false));
    let log = drive(&app, |a: &Action| match a {
        Action::Run(i) if i.program == "cargo" => ran(false, b"", &[0xff, 0xfe]),
        Action::Run(_) => ran(true, b"", b""),
        _ => Event::Done,
    });
    let n = log.len();
    assert_eq!(log[n - 2], "cd ..");
    assert_eq!(log[n - 1], "abort Undecodable");
}

#[test]
fn missing_readme_only_warns() {
    let app = App::new(args("p", None, None, false));
    let log = drive(&app, |a: &Action| match a {
        Action::CreateFile(_) => Event::Failed,
        Action::Run(_) => ran(true, b"u", b""),
        _ => Event::Done,
    });
    assert_eq!(log[3], "warn Unable to create README.md.");
    assert_eq!(log[4], "git init");
    assert_eq!(log.last().unwrap(), "finish");
}

#[test]
fn file_system_failures_are_fatal() {
    let app = App::new(args("p", None, Some("lib"), false));
    let cases: Vec<(Stage, Fatal)> = vec![
        (Stage::MakeProjectDir, Fatal::ProjectDir),
        (Stage::EnterProjectDir, Fatal::EnterProject),
        (Stage::WriteIgnore, Fatal::IgnoreFile),
        (Stage::MakeDocs, Fatal::DocsDir),
        (Stage::MakeSoftwareDir, Fatal::SoftwareDir),
        (Stage::EnterSoftwareDir, Fatal::EnterSoftware),
        (Stage::InitRepo, Fatal::ToolStart),
        (Stage::Push, Fatal::ToolStart),
    ];
    for (stage, fatal) in cases {
        let (s, a) = app.step(&stage, &Event::Failed);
        assert!(matches!(s, Stage::Aborted(f) if f == fatal));
        assert!(matches!(a, Action::Abort(f) if f == fatal));
    }
}

#[test]
fn unreadable_remote_identifier_aborts() {
    let app = App::new(args("p", None, None, false));
    let (s, _) = app.step(&Stage::CreateRemote, &ran(true, &[0xc3], b""));
    assert!(matches!(s, Stage::Aborted(Fatal::Undecodable)));
}

#[test]
fn failed_push_still_finishes() {
    let app = App::new(args("p", None, None, false));
    let (s, a) = app.step(&Stage::Push, &ran(false, b"", b"rejected"));
    assert!(matches!(s, Stage::Complete));
    assert!(matches!(a, Action::Finish));
}

#[test]
fn command_result_interpretation() {
    let ok = ProcessOutcome { success: true, stdout: vec![], stderr: b"warning".to_vec() };
    assert_eq!(check_command_result(&ok), Some(Ok(())));
    let bad = ProcessOutcome { success: false, stdout: vec![], stderr: "échec".as_bytes().to_vec() };
    assert_eq!(check_command_result(&bad), Some(Err("échec".to_string())));
    let junk = ProcessOutcome { success: false, stdout: vec![], stderr: vec![0x80] };
    assert_eq!(check_command_result(&junk), None);
}

#[test]
fn builders_commands_and_patterns() {
    let r = RustProjectBuilder { name: "a".to_string(), template: "bin".to_string() };
    let i = r.create();
    assert_eq!(i.program, "cargo");
    assert_eq!(i.args, vec!["new", "--bin", "a"]);
    assert_eq!(r.ignore_str(), "target");
    let c = CSharpProjectBuilder { name: "b".to_string(), template: "classlib".to_string() };
    let i = c.create();
    assert_eq!(i.program, "dotnet");
    assert_eq!(i.args, vec!["new", "classlib", "-o", "b"]);
    assert_eq!(c.ignore_str(), "bin\nobj");
}

#[test]
fn trimming_trailing_whitespace() {
    assert_eq!(trim_end("abc \n\t"), "abc");
    assert_eq!(trim_end(" a b"), " a b");
    assert_eq!(trim_end(""), "");
    assert_eq!(trim_end(" \n"), "");
    assert_eq!(trim_end("x\u{3000}"), "x");
}

#[test]
fn visibility_flags() {
    assert_eq!(visibility_flag(Visibility::Public), "--public");
    assert_eq!(visibility_flag(Visibility::Private), "--private");
}
