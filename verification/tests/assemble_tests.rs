use contain::assemble::{
    assemble_build_args, assemble_exec_args, assemble_run_args, assemble_up_args, container_dir,
};
use contain::cli::parse_flags;
use contain::errors::Error;
use contain::model::{Configuration, GlobalOptions, Identity};
use contain::text::{container_name_listed, dec_string, trim};

fn base_config() -> Configuration {
    Configuration {
        image: "busybox".to_string(),
        name: None,
        dockerfile: "Dockerfile".to_string(),
        root_path: "/proj".to_string(),
        workdir_path: "/workdir".to_string(),
        flags: vec![],
        env_variables: vec![],
        build_args: vec![],
        extra_mounts: vec![],
        ports: vec![],
        default_shell: None,
    }
}

fn base_options() -> GlobalOptions {
    GlobalOptions {
        interactive: false,
        persist_image: false,
        keep_container: false,
        run_as_root: false,
        dry_run: false,
        skip_ports: false,
        skip_name: false,
        cli_env_variables: vec![],
    }
}

fn strings(v: &[&str]) -> Vec<String> {
    v.iter().map(|s| s.to_string()).collect()
}

#[test]
fn skip_ports_produces_no_port_mapping_and_a_workspace_mount() {
    let mut c = base_config();
    c.ports = strings(&["8080:80"]);
    let mut o = base_options();
    o.skip_ports = true;
    let args = assemble_run_args(&c, &o, 1000, 1000, "/workdir/", "ls", &vec![]);
    assert_eq!(
        args,
        strings(&[
            "run",
            "-u",
            "1000:1000",
            "--rm",
            "-w",
            "/workdir/",
            "--mount",
            "type=bind,src=/proj,dst=/workdir",
            "busybox",
            "ls",
        ])
    );
    assert!(!args.contains(&"-p".to_string()));
    assert!(!args.contains(&"8080:80".to_string()));
}

#[test]
fn declared_ports_appear_without_skip() {
    let mut c = base_config();
    c.ports = strings(&["8080:80", "9090:90"]);
    let o = base_options();
    let args = assemble_run_args(&c, &o, 1000, 1000, "/workdir/", "ls", &vec![]);
    let p1 = args.iter().position(|a| a == "8080:80").expect("first port expected");
    assert_eq!(args[p1 - 1], "-p");
    let p2 = args.iter().position(|a| a == "9090:90").expect("second port expected");
    assert_eq!(args[p2 - 1], "-p");
}

#[test]
fn root_override_removes_the_user_mapping() {
    let c = base_config();
    let mut o = base_options();
    o.run_as_root = true;
    let args = assemble_run_args(&c, &o, 1000, 1000, "/workdir/", "ls", &vec![]);
    assert!(!args.contains(&"-u".to_string()));
    assert!(!args.contains(&"1000:1000".to_string()));
}

#[test]
fn config_root_flag_also_removes_the_user_mapping() {
    let mut c = base_config();
    c.flags = strings(&["root"]);
    let o = base_options();
    let args = assemble_run_args(&c, &o, 1000, 1000, "/workdir/", "ls", &vec![]);
    assert!(!args.contains(&"-u".to_string()));
}

#[test]
fn keep_from_either_source_is_equivalent() {
    let mut with_flag = base_config();
    with_flag.flags = strings(&["k"]);
    let mut with_option = base_options();
    with_option.keep_container = true;
    let from_flag = assemble_run_args(&with_flag, &base_options(), 1, 2, "/w/", "x", &vec![]);
    let from_option = assemble_run_args(&base_config(), &with_option, 1, 2, "/w/", "x", &vec![]);
    let from_both = assemble_run_args(&with_flag, &with_option, 1, 2, "/w/", "x", &vec![]);
    assert_eq!(from_flag, from_option);
    assert_eq!(from_flag, from_both);
    assert!(!from_flag.contains(&"--rm".to_string()));
}

#[test]
fn environment_assignments_keep_config_before_cli() {
    let mut c = base_config();
    c.env_variables = strings(&[" A=1 "]);
    let mut o = base_options();
    o.cli_env_variables = strings(&["B=2"]);
    let args = assemble_run_args(&c, &o, 1, 2, "/w/", "x", &vec![]);
    let a = args.iter().position(|v| v == "A=1").expect("config assignment expected");
    let b = args.iter().position(|v| v == "B=2").expect("cli assignment expected");
    assert!(a < b);
    assert_eq!(args[a - 1], "-e");
    assert_eq!(args[b - 1], "-e");
}

#[test]
fn named_configuration_carries_the_name_unless_skipped() {
    let mut c = base_config();
    c.name = Some("box".to_string());
    let named = assemble_run_args(&c, &base_options(), 1, 2, "/w/", "x", &vec![]);
    assert_eq!(&named[1..3], &["--name".to_string(), "box".to_string()][..]);
    let mut o = base_options();
    o.skip_name = true;
    let skipped = assemble_run_args(&c, &o, 1, 2, "/w/", "x", &vec![]);
    assert!(!skipped.contains(&"--name".to_string()));
}

#[test]
fn command_arguments_pass_through_unmodified_and_in_order() {
    let c = base_config();
    let args = assemble_run_args(
        &c,
        &base_options(),
        1,
        2,
        "/w/",
        "cargo",
        &strings(&["build", "--release"]),
    );
    let n = args.len();
    assert_eq!(&args[n - 3..], &strings(&["cargo", "build", "--release"])[..]);
}

#[test]
fn exec_arguments_follow_the_documented_order() {
    let mut c = base_config();
    c.name = Some("box".to_string());
    c.env_variables = strings(&["A=1"]);
    let args = assemble_exec_args(&c, &base_options(), 7, 9, "/workdir/sub", "box", "make", &strings(&["all"]));
    assert_eq!(
        args,
        strings(&["exec", "-it", "-u", "7:9", "-w", "/workdir/sub", "-e", "A=1", "box", "make", "all"])
    );
}

#[test]
fn build_arguments_inject_identity_before_user_build_args() {
    let mut c = base_config();
    c.build_args = strings(&[" EXTRA=1 "]);
    let ident = Identity { uid: 1000, gid: 100, username: "dev".to_string() };
    let args = assemble_build_args(&c, &ident);
    assert_eq!(
        args,
        strings(&[
            "build",
            "--build-arg",
            "uid=1000",
            "--build-arg",
            "gid=100",
            "--build-arg",
            "username=dev",
            "--build-arg",
            "workdir_path=/workdir",
            "--build-arg",
            "EXTRA=1",
            "-t",
            "busybox",
            "-f",
            "Dockerfile",
            "/proj",
        ])
    );
}

#[test]
fn detached_launch_keeps_the_container_alive_and_unremoved() {
    let mut c = base_config();
    c.name = Some("box".to_string());
    let args = assemble_up_args(&c, &base_options(), 1, 2, "/workdir/", "box");
    assert_eq!(&args[..4], &strings(&["run", "-d", "--name", "box"])[..]);
    assert!(!args.contains(&"--rm".to_string()));
    let n = args.len();
    assert_eq!(&args[n - 3..], &strings(&["busybox", "sleep", "infinity"])[..]);
}

#[test]
fn working_directory_translation_is_relative_to_the_root() {
    assert_eq!(container_dir("/proj/sub/dir", "/proj", "/workdir").unwrap(), "/workdir/sub/dir");
    assert_eq!(container_dir("/proj", "/proj", "/workdir").unwrap(), "/workdir/");
    match container_dir("/elsewhere", "/proj", "/workdir") {
        Err(Error::PathOutsideRoot { current, root }) => {
            assert_eq!(current, "/elsewhere");
            assert_eq!(root, "/proj");
        },
        other => panic!("expected a path error, got {:?}", other),
    }
}

#[test]
fn decimal_rendering_is_exact() {
    assert_eq!(dec_string(0), "0");
    assert_eq!(dec_string(42), "42");
    assert_eq!(dec_string(4294967295), "4294967295");
}

#[test]
fn trimming_strips_ascii_whitespace_at_both_ends() {
    assert_eq!(trim("  a b \n"), "a b");
    assert_eq!(trim("\t\r\n "), "");
    assert_eq!(trim("plain"), "plain");
}

#[test]
fn listing_lines_match_names_after_quotes_are_dropped() {
    assert!(container_name_listed("'box'\n", "box"));
    assert!(container_name_listed("box", "box"));
    assert!(!container_name_listed("'other'\n", "box"));
    assert!(!container_name_listed("", "box"));
}

#[test]
fn leading_flags_fold_into_the_options() {
    let tokens = strings(&["-k", "-i", "--root", "-eFOO=bar", "build", "--release"]);
    let (opts, command, args) = parse_flags(&tokens).expect("flags should parse");
    assert!(opts.keep_container);
    assert!(opts.interactive);
    assert!(opts.run_as_root);
    assert!(!opts.dry_run);
    assert_eq!(opts.cli_env_variables, strings(&["FOO=bar"]));
    assert_eq!(command, "build");
    assert_eq!(args, strings(&["--release"]));
}

#[test]
fn unknown_flag_is_rejected() {
    let tokens = strings(&["-z", "build"]);
    match parse_flags(&tokens) {
        Err(Error::UnsupportedFlag { flag }) => assert_eq!(flag, "-z"),
        other => panic!("expected an unsupported-flag error, got {:?}", other),
    }
}

#[test]
fn flags_without_a_command_are_rejected() {
    let tokens = strings(&["-k", "--dry"]);
    match parse_flags(&tokens) {
        Err(Error::MissingCommand) => {},
        other => panic!("expected a missing-command error, got {:?}", other),
    }
}

#[test]
fn bare_env_flag_records_an_empty_assignment() {
    let tokens = strings(&["-e", "run"]);
    let (opts, command, _) = parse_flags(&tokens).expect("flags should parse");
    assert_eq!(opts.cli_env_variables, strings(&[""]));
    assert_eq!(command, "run");
}
