use flatpakify::errors::BuildError;
use flatpakify::paths::{fixup_mode, join_path};
use flatpakify::pipeline::{Action, Event, Phase, Pipeline};

fn listing() -> Vec<String> {
    vec!["foo.dll".to_string(), "foo.runtimeconfig.json".to_string()]
}

/// A printable trace entry for one action, for comparing runs.
fn describe(action: &Action) -> String {
    match action {
        Action::ListDir { path } => format!("list {path}"),
        Action::SetPermissions { path, mode } => format!("chmod {mode:o} {path}"),
        Action::WriteFile { path, contents } => format!("write {path} <{contents}>"),
        Action::RunProcess { program, args } => format!("run {program} {}", args.join(" ")),
        Action::Report { bundle_path } => format!("report {bundle_path}"),
        Action::Stop => "stop".to_string(),
    }
}

fn drive_successful_run(game_id: &str, game_dir: &str) -> (Pipeline, Vec<String>) {
    let mut p = Pipeline::new(game_id.to_string(), game_dir.to_string());
    let mut trace = Vec::new();
    let a = p.on_event(Event::Started);
    trace.push(describe(&a));
    let a = p.on_event(Event::DirListed { names: listing() });
    trace.push(describe(&a));
    let a = p.on_event(Event::PermissionsSet);
    trace.push(describe(&a));
    let a = p.on_event(Event::FileWritten);
    trace.push(describe(&a));
    let a = p.on_event(Event::ProcessExited { ok: true });
    trace.push(describe(&a));
    let a = p.on_event(Event::ProcessExited { ok: true });
    trace.push(describe(&a));
    (p, trace)
}

#[test]
fn end_to_end_run_orders_every_step() {
    let mut p = Pipeline::new("abc-123".to_string(), "./mygame".to_string());

    let a = p.on_event(Event::Started);
    match a {
        Action::ListDir { path } => assert_eq!(path, "./mygame/publish"),
        other => panic!("expected a listing action, got {}", describe(&other)),
    }

    let a = p.on_event(Event::DirListed { names: listing() });
    match a {
        Action::SetPermissions { path, mode } => {
            assert_eq!(path, "./mygame/publish/foo");
            assert_eq!(mode, 0o755);
        }
        other => panic!("expected a permissions action, got {}", describe(&other)),
    }

    let a = p.on_event(Event::PermissionsSet);
    match a {
        Action::WriteFile { path, contents } => {
            assert_eq!(path, "./mygame/flatpak.yml");
            assert!(contents.contains("app-id: edu.rit.csh.devcade.game.id-abc-123\n"));
            assert!(contents.contains("command: /app/publish/foo\n"));
        }
        other => panic!("expected a manifest write, got {}", describe(&other)),
    }

    let a = p.on_event(Event::FileWritten);
    match a {
        Action::RunProcess { program, args } => {
            assert_eq!(program, "flatpak-builder");
            assert_eq!(
                args,
                vec![
                    "--state-dir=./mygame/state-dir",
                    "--repo=./mygame/repo",
                    "--force-clean",
                    "--user",
                    "./mygame/build",
                    "./mygame/flatpak.yml",
                ]
            );
        }
        other => panic!("expected the compiler run, got {}", describe(&other)),
    }

    let a = p.on_event(Event::ProcessExited { ok: true });
    match a {
        Action::RunProcess { program, args } => {
            assert_eq!(program, "flatpak");
            assert_eq!(
                args,
                vec![
                    "build-bundle",
                    "./mygame/repo",
                    "./mygame/bundle.flatpak",
                    "edu.rit.csh.devcade.game.id-abc-123",
                ]
            );
        }
        other => panic!("expected the bundler run, got {}", describe(&other)),
    }

    let a = p.on_event(Event::ProcessExited { ok: true });
    match a {
        Action::Report { bundle_path } => assert_eq!(bundle_path, "./mygame/bundle.flatpak"),
        other => panic!("expected the success report, got {}", describe(&other)),
    }
    assert_eq!(p.phase, Phase::Done);
    assert_eq!(p.error, None);
}

#[test]
fn rerun_repeats_the_same_actions() {
    let (p1, t1) = drive_successful_run("abc-123", "./mygame");
    let (p2, t2) = drive_successful_run("abc-123", "./mygame");
    assert_eq!(t1, t2);
    assert_eq!(p1.phase, Phase::Done);
    assert_eq!(p2.phase, Phase::Done);
}

#[test]
fn missing_sidecar_fails_the_run() {
    let mut p = Pipeline::new("id".to_string(), "./d".to_string());
    p.on_event(Event::Started);
    let a = p.on_event(Event::DirListed {
        names: vec!["game.dll".to_string()],
    });
    assert!(matches!(a, Action::Stop));
    assert_eq!(p.phase, Phase::Failed);
    assert_eq!(p.error, Some(BuildError::UnsupportedInference));
}

#[test]
fn listing_failure_is_an_io_error() {
    let mut p = Pipeline::new("id".to_string(), "./d".to_string());
    p.on_event(Event::Started);
    let a = p.on_event(Event::IoFailed);
    assert!(matches!(a, Action::Stop));
    assert_eq!(p.phase, Phase::Failed);
    assert_eq!(p.error, Some(BuildError::Io));
}

#[test]
fn compiler_failure_is_surfaced() {
    let mut p = Pipeline::new("id".to_string(), "./d".to_string());
    p.on_event(Event::Started);
    p.on_event(Event::DirListed { names: listing() });
    p.on_event(Event::PermissionsSet);
    p.on_event(Event::FileWritten);
    let a = p.on_event(Event::ProcessExited { ok: false });
    assert!(matches!(a, Action::Stop));
    assert_eq!(p.phase, Phase::Failed);
    assert_eq!(p.error, Some(BuildError::CompilerFailed));
}

#[test]
fn bundler_failure_is_surfaced() {
    let mut p = Pipeline::new("id".to_string(), "./d".to_string());
    p.on_event(Event::Started);
    p.on_event(Event::DirListed { names: listing() });
    p.on_event(Event::PermissionsSet);
    p.on_event(Event::FileWritten);
    p.on_event(Event::ProcessExited { ok: true });
    let a = p.on_event(Event::ProcessExited { ok: false });
    assert!(matches!(a, Action::Stop));
    assert_eq!(p.phase, Phase::Failed);
    assert_eq!(p.error, Some(BuildError::BundlerFailed));
}

#[test]
fn mismatched_event_halts_without_moving() {
    let mut p = Pipeline::new("id".to_string(), "./d".to_string());
    let a = p.on_event(Event::FileWritten);
    assert!(matches!(a, Action::Stop));
    assert_eq!(p.phase, Phase::Start);
    assert_eq!(p.error, None);
}

#[test]
fn permission_fixup_is_idempotent() {
    assert_eq!(fixup_mode(0o644), 0o755);
    assert_eq!(fixup_mode(fixup_mode(0o644)), fixup_mode(0o644));
    assert_eq!(fixup_mode(0o755), 0o755);
}

#[test]
fn join_path_inserts_one_separator() {
    assert_eq!(join_path("./mygame", "publish"), "./mygame/publish");
    assert_eq!(join_path("./mygame/", "publish"), "./mygame/publish");
    assert_eq!(join_path("", "publish"), "publish");
}
