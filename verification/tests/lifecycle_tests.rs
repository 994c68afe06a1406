use contain::errors::Error;
use contain::identity::host_identity;
use contain::lifecycle::{
    detect_passthrough, make_container_info, passthrough_plan, shell_command, EngineAction,
    EngineEvent, Note, Orchestrator, Subcommand,
};
use contain::model::{Configuration, GlobalOptions, Identity};

fn strings(v: &[&str]) -> Vec<String> {
    v.iter().map(|s| s.to_string()).collect()
}

fn named_config() -> Configuration {
    Configuration {
        image: "busybox".to_string(),
        name: Some("dev-env".to_string()),
        dockerfile: "Dockerfile".to_string(),
        root_path: "/proj".to_string(),
        workdir_path: "/workdir".to_string(),
        flags: vec![],
        env_variables: vec![],
        build_args: vec![],
        extra_mounts: vec![],
        ports: vec![],
        default_shell: None,
    }
}

fn options() -> GlobalOptions {
    GlobalOptions {
        interactive: false,
        persist_image: false,
        keep_container: false,
        run_as_root: false,
        dry_run: false,
        skip_ports: false,
        skip_name: false,
        cli_env_variables: vec![],
    }
}

fn ident() -> Identity {
    Identity { uid: 1000, gid: 1000, username: "dev".to_string() }
}

fn orchestrator(cfg: Configuration, sub: Subcommand) -> Orchestrator {
    Orchestrator::new(
        cfg,
        options(),
        sub,
        "lint".to_string(),
        vec![],
        "/workdir/".to_string(),
        ident(),
        false,
    )
}

fn feed(o: &mut Orchestrator, ev: EngineEvent) -> EngineAction {
    assert!(o.accepts(&ev), "the orchestrator should expect this event");
    o.step(ev)
}

#[test]
fn up_with_no_container_builds_then_launches_detached() {
    let mut o = orchestrator(named_config(), Subcommand::Up);
    match feed(&mut o, EngineEvent::Begin) {
        EngineAction::QueryRunning(name) => assert_eq!(name, "dev-env"),
        other => panic!("expected a running query, got {:?}", other),
    }
    match feed(&mut o, EngineEvent::RunningQueried(false)) {
        EngineAction::QueryKnown(name) => assert_eq!(name, "dev-env"),
        other => panic!("expected a known query, got {:?}", other),
    }
    match feed(&mut o, EngineEvent::KnownQueried(false)) {
        EngineAction::QueryImage(image) => assert_eq!(image, "busybox"),
        other => panic!("expected an image query, got {:?}", other),
    }
    match feed(&mut o, EngineEvent::ImagePresent(false)) {
        EngineAction::Pull(image) => assert_eq!(image, "busybox"),
        other => panic!("expected a pull, got {:?}", other),
    }
    match feed(&mut o, EngineEvent::PullDone(false)) {
        EngineAction::Build(args) => assert_eq!(args[0], "build"),
        other => panic!("expected a build, got {:?}", other),
    }
    match feed(&mut o, EngineEvent::BuildDone(true)) {
        EngineAction::Invoke(args) => {
            assert_eq!(&args[..4], &strings(&["run", "-d", "--name", "dev-env"])[..]);
            let n = args.len();
            assert_eq!(&args[n - 2..], &strings(&["sleep", "infinity"])[..]);
        },
        other => panic!("expected the detached launch, got {:?}", other),
    }
    match feed(&mut o, EngineEvent::CommandDone(Some(0))) {
        EngineAction::Finish { code, .. } => assert_eq!(code, 0),
        other => panic!("expected completion, got {:?}", other),
    }
    assert!(o.finished());
}

#[test]
fn up_on_a_running_container_fails_and_down_then_up_succeeds() {
    let mut second_up = orchestrator(named_config(), Subcommand::Up);
    feed(&mut second_up, EngineEvent::Begin);
    match feed(&mut second_up, EngineEvent::RunningQueried(true)) {
        EngineAction::Fail(Error::AlreadyRunning { name }) => assert_eq!(name, "dev-env"),
        other => panic!("expected already-running, got {:?}", other),
    }
    assert!(second_up.finished());

    let mut down = orchestrator(named_config(), Subcommand::Down);
    feed(&mut down, EngineEvent::Begin);
    match feed(&mut down, EngineEvent::RunningQueried(true)) {
        EngineAction::StopContainer(name) => assert_eq!(name, "dev-env"),
        other => panic!("expected a stop, got {:?}", other),
    }
    match feed(&mut down, EngineEvent::StopDone(true)) {
        EngineAction::RemoveContainer(name) => assert_eq!(name, "dev-env"),
        other => panic!("expected a removal, got {:?}", other),
    }
    match feed(&mut down, EngineEvent::RemoveDone(true)) {
        EngineAction::Finish { code: 0, note: Some(Note::Removed(name)) } => {
            assert_eq!(name, "dev-env")
        },
        other => panic!("expected completion, got {:?}", other),
    }

    let mut third_up = orchestrator(named_config(), Subcommand::Up);
    feed(&mut third_up, EngineEvent::Begin);
    feed(&mut third_up, EngineEvent::RunningQueried(false));
    match feed(&mut third_up, EngineEvent::KnownQueried(false)) {
        EngineAction::QueryImage(_) => {},
        other => panic!("expected an image query, got {:?}", other),
    }
}

#[test]
fn up_restarts_a_stopped_container_instead_of_launching() {
    let mut o = orchestrator(named_config(), Subcommand::Up);
    feed(&mut o, EngineEvent::Begin);
    feed(&mut o, EngineEvent::RunningQueried(false));
    match feed(&mut o, EngineEvent::KnownQueried(true)) {
        EngineAction::StartContainer(name) => assert_eq!(name, "dev-env"),
        other => panic!("expected a start, got {:?}", other),
    }
    match feed(&mut o, EngineEvent::StartDone(true)) {
        EngineAction::Finish { code: 0, note: Some(Note::Started(name)) } => {
            assert_eq!(name, "dev-env")
        },
        other => panic!("expected completion, got {:?}", other),
    }
}

#[test]
fn failed_start_stop_and_remove_are_lifecycle_errors() {
    let mut up = orchestrator(named_config(), Subcommand::Up);
    feed(&mut up, EngineEvent::Begin);
    feed(&mut up, EngineEvent::RunningQueried(false));
    feed(&mut up, EngineEvent::KnownQueried(true));
    match feed(&mut up, EngineEvent::StartDone(false)) {
        EngineAction::Fail(Error::StartFailed { name }) => assert_eq!(name, "dev-env"),
        other => panic!("expected a start failure, got {:?}", other),
    }

    let mut down = orchestrator(named_config(), Subcommand::Down);
    feed(&mut down, EngineEvent::Begin);
    feed(&mut down, EngineEvent::RunningQueried(true));
    match feed(&mut down, EngineEvent::StopDone(false)) {
        EngineAction::Fail(Error::StopFailed { name }) => assert_eq!(name, "dev-env"),
        other => panic!("expected a stop failure, got {:?}", other),
    }

    let mut removing = orchestrator(named_config(), Subcommand::Down);
    feed(&mut removing, EngineEvent::Begin);
    feed(&mut removing, EngineEvent::RunningQueried(false));
    feed(&mut removing, EngineEvent::KnownQueried(true));
    match feed(&mut removing, EngineEvent::RemoveDone(false)) {
        EngineAction::Fail(Error::RemoveFailed { name }) => assert_eq!(name, "dev-env"),
        other => panic!("expected a removal failure, got {:?}", other),
    }
}

#[test]
fn down_with_nothing_to_do_is_informational_success() {
    let mut o = orchestrator(named_config(), Subcommand::Down);
    feed(&mut o, EngineEvent::Begin);
    feed(&mut o, EngineEvent::RunningQueried(false));
    match feed(&mut o, EngineEvent::KnownQueried(false)) {
        EngineAction::Finish { code: 0, note: Some(Note::NothingToDo(name)) } => {
            assert_eq!(name, "dev-env")
        },
        other => panic!("expected an informational finish, got {:?}", other),
    }
}

#[test]
fn up_without_a_name_is_refused_before_any_engine_call() {
    let mut cfg = named_config();
    cfg.name = None;
    let mut o = orchestrator(cfg, Subcommand::Up);
    match feed(&mut o, EngineEvent::Begin) {
        EngineAction::Fail(Error::NameRequired { subcommand }) => assert_eq!(subcommand, "up"),
        other => panic!("expected name-required, got {:?}", other),
    }
    assert!(o.finished());
}

#[test]
fn run_execs_into_a_running_named_container() {
    let mut o = orchestrator(named_config(), Subcommand::Run);
    match feed(&mut o, EngineEvent::Begin) {
        EngineAction::QueryImage(_) => {},
        other => panic!("expected an image query, got {:?}", other),
    }
    match feed(&mut o, EngineEvent::ImagePresent(true)) {
        EngineAction::QueryRunning(name) => assert_eq!(name, "dev-env"),
        other => panic!("expected a running query, got {:?}", other),
    }
    match feed(&mut o, EngineEvent::RunningQueried(true)) {
        EngineAction::Invoke(args) => {
            assert_eq!(args[0], "exec");
            assert!(args.contains(&"dev-env".to_string()));
            assert!(args.contains(&"lint".to_string()));
        },
        other => panic!("expected an exec, got {:?}", other),
    }
    match feed(&mut o, EngineEvent::CommandDone(Some(3))) {
        EngineAction::Finish { code, note: None } => assert_eq!(code, 3),
        other => panic!("expected completion, got {:?}", other),
    }
}

#[test]
fn run_launches_fresh_when_the_name_is_not_running() {
    let mut o = orchestrator(named_config(), Subcommand::Run);
    feed(&mut o, EngineEvent::Begin);
    feed(&mut o, EngineEvent::ImagePresent(true));
    match feed(&mut o, EngineEvent::RunningQueried(false)) {
        EngineAction::Invoke(args) => {
            assert_eq!(args[0], "run");
            assert!(args.contains(&"--name".to_string()));
            assert!(args.contains(&"--rm".to_string()));
        },
        other => panic!("expected a fresh run, got {:?}", other),
    }
}

#[test]
fn missing_exit_code_falls_back_to_zero() {
    let mut cfg = named_config();
    cfg.name = None;
    let mut o = orchestrator(cfg, Subcommand::Run);
    feed(&mut o, EngineEvent::Begin);
    match feed(&mut o, EngineEvent::ImagePresent(true)) {
        EngineAction::Invoke(args) => assert_eq!(args[0], "run"),
        other => panic!("expected a fresh run, got {:?}", other),
    }
    match feed(&mut o, EngineEvent::CommandDone(None)) {
        EngineAction::Finish { code, .. } => assert_eq!(code, 0),
        other => panic!("expected completion, got {:?}", other),
    }
}

#[test]
fn failed_build_chain_is_fatal() {
    let mut cfg = named_config();
    cfg.name = None;
    let mut o = orchestrator(cfg, Subcommand::Run);
    feed(&mut o, EngineEvent::Begin);
    feed(&mut o, EngineEvent::ImagePresent(false));
    feed(&mut o, EngineEvent::PullDone(false));
    match feed(&mut o, EngineEvent::BuildDone(false)) {
        EngineAction::Fail(Error::ImageBuildFailed { image }) => assert_eq!(image, "busybox"),
        other => panic!("expected a build failure, got {:?}", other),
    }
}

#[test]
fn dry_run_skips_the_image_chain_and_only_reports() {
    let mut cfg = named_config();
    cfg.name = None;
    let mut opts = options();
    opts.dry_run = true;
    let mut o = Orchestrator::new(
        cfg,
        opts,
        Subcommand::Run,
        "lint".to_string(),
        vec![],
        "/workdir/".to_string(),
        ident(),
        false,
    );
    match feed(&mut o, EngineEvent::Begin) {
        EngineAction::Finish { code: 0, note: Some(Note::DryRun(args)) } => {
            assert_eq!(args[0], "run")
        },
        other => panic!("expected a dry-run report, got {:?}", other),
    }
    assert!(o.finished());
}

#[test]
fn status_reports_the_three_container_states() {
    let mut absent = orchestrator(named_config(), Subcommand::Status);
    feed(&mut absent, EngineEvent::Begin);
    match feed(&mut absent, EngineEvent::InfoQueried(None)) {
        EngineAction::Finish { code: 0, note: Some(Note::NotCreated(name)) } => {
            assert_eq!(name, "dev-env")
        },
        other => panic!("expected not-created, got {:?}", other),
    }

    let running_info = make_container_info(
        "dev-env".to_string(),
        "Up 2 hours".to_string(),
        "busybox".to_string(),
        "2 hours ago".to_string(),
        "8080->80".to_string(),
    );
    assert!(running_info.running);
    let mut running = orchestrator(named_config(), Subcommand::Status);
    feed(&mut running, EngineEvent::Begin);
    match feed(&mut running, EngineEvent::InfoQueried(Some(running_info))) {
        EngineAction::Finish { code: 0, note: Some(Note::Running(info)) } => {
            assert_eq!(info.image, "busybox")
        },
        other => panic!("expected a running report, got {:?}", other),
    }

    let stopped_info = make_container_info(
        "dev-env".to_string(),
        "Exited (0) 5 minutes ago".to_string(),
        "busybox".to_string(),
        "2 hours ago".to_string(),
        String::new(),
    );
    assert!(!stopped_info.running);
    let mut stopped = orchestrator(named_config(), Subcommand::Status);
    feed(&mut stopped, EngineEvent::Begin);
    match feed(&mut stopped, EngineEvent::InfoQueried(Some(stopped_info))) {
        EngineAction::Finish { code: 0, note: Some(Note::Stopped(_)) } => {},
        other => panic!("expected a stopped report, got {:?}", other),
    }
}

#[test]
fn passthrough_is_detected_from_override_and_markers() {
    assert!(detect_passthrough(None, true, false));
    assert!(detect_passthrough(None, false, true));
    assert!(!detect_passthrough(None, false, false));
    assert!(detect_passthrough(Some("TRUE"), false, false));
    assert!(detect_passthrough(Some("yes"), false, false));
    assert!(detect_passthrough(Some("1"), false, false));
    assert!(!detect_passthrough(Some("0"), true, true));
    assert!(!detect_passthrough(Some("False"), true, true));
    assert!(detect_passthrough(Some("unrecognized"), true, false));
    assert!(!detect_passthrough(Some("unrecognized"), false, false));
}

#[test]
fn passthrough_runs_the_command_with_only_cli_environment() {
    let mut opts = options();
    opts.cli_env_variables = strings(&["FOO=bar"]);
    let plan = passthrough_plan("lint", &strings(&["--fix"]), &opts);
    assert_eq!(plan.command, "lint");
    assert_eq!(plan.args, strings(&["--fix"]));
    assert_eq!(plan.env, strings(&["FOO=bar"]));
}

#[test]
fn up_refuses_to_run_inside_a_container() {
    let mut o = Orchestrator::new(
        named_config(),
        options(),
        Subcommand::Up,
        "lint".to_string(),
        vec![],
        "/workdir/".to_string(),
        ident(),
        true,
    );
    match feed(&mut o, EngineEvent::Begin) {
        EngineAction::Fail(Error::InsideContainer { subcommand }) => assert_eq!(subcommand, "up"),
        other => panic!("expected an inside-container refusal, got {:?}", other),
    }
}

#[test]
fn shell_command_uses_the_declared_shell_or_sh() {
    let mut cfg = named_config();
    assert_eq!(shell_command(&cfg), "sh");
    cfg.default_shell = Some("zsh".to_string());
    assert_eq!(shell_command(&cfg), "zsh");
}

#[test]
fn host_identity_carries_a_nonempty_username() {
    let ident = host_identity();
    assert!(!ident.username.is_empty());
}
