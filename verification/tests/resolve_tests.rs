use contain::document::{read_document, DocState};
use contain::errors::Error;
use contain::expand::EnvContext;
use contain::model::Configuration;
use contain::resolve::{
    evaluate_document, locate, materialize, record_var_output, var_command_line, DirDoc,
    DocOutcome, LocateOutcome, PendingConfig, VarDecl,
};

const CURRENT: &str = "0.3.0";

fn parsed(text: &str) -> Vec<(String, contain::document::RawValue)> {
    match read_document(text) {
        DocState::Parsed(fields) => fields,
        _ => panic!("document should parse"),
    }
}

fn dir(path: &str, text: &str) -> DirDoc {
    DirDoc { path: path.to_string(), doc: read_document(text) }
}

fn missing(path: &str) -> DirDoc {
    DirDoc { path: path.to_string(), doc: DocState::Missing }
}

const CHILD_DOC: &str = "images:\n  - commands: lint\n    image: child-image\n    dockerfile: Dockerfile\n";
const PARENT_DOC: &str = "images:\n  - commands: lint\n    image: parent-image\n    dockerfile: Dockerfile\n";

fn matched_pending(outcome: LocateOutcome) -> (usize, PendingConfig) {
    match outcome {
        LocateOutcome::Matched { root_index, pending } => (root_index, pending),
        LocateOutcome::Halted { error } => panic!("expected a match, got {:?}", error),
    }
}

#[test]
fn nearest_matching_document_wins() {
    let dirs = vec![dir("/home/u/proj/sub", CHILD_DOC), dir("/home/u/proj", PARENT_DOC)];
    let (root_index, pending) = matched_pending(locate(&dirs, "lint", CURRENT));
    assert_eq!(root_index, 0);
    assert_eq!(pending.image, "child-image");
}

#[test]
fn walk_continues_past_missing_and_non_matching_documents() {
    let other = "images:\n  - commands: other\n    image: other-image\n    dockerfile: Dockerfile\n";
    let dirs = vec![missing("/a/b/c"), dir("/a/b", other), dir("/a", PARENT_DOC)];
    let (root_index, pending) = matched_pending(locate(&dirs, "lint", CURRENT));
    assert_eq!(root_index, 2);
    assert_eq!(pending.image, "parent-image");
}

#[test]
fn unparsable_document_halts_the_walk() {
    let dirs = vec![dir("/a/b", "images: [:::"), dir("/a", PARENT_DOC)];
    match locate(&dirs, "lint", CURRENT) {
        LocateOutcome::Halted { error: Error::ConfigParse { path } } => assert_eq!(path, "/a/b"),
        other => panic!("expected a parse error, got {:?}", other),
    }
}

#[test]
fn no_document_anywhere_reports_no_config_found() {
    let dirs = vec![missing("/a/b"), missing("/a")];
    match locate(&dirs, "lint", CURRENT) {
        LocateOutcome::Halted { error: Error::NoConfigFound { command } } => {
            assert_eq!(command, "lint")
        },
        other => panic!("expected no-config-found, got {:?}", other),
    }
}

#[test]
fn wildcard_entry_matches_any_command() {
    let doc = "images:\n  - commands: any\n    image: wild\n    dockerfile: Dockerfile\n";
    let dirs = vec![dir("/p", doc)];
    let (_, pending) = matched_pending(locate(&dirs, "absolutely-anything", CURRENT));
    assert_eq!(pending.image, "wild");
}

#[test]
fn declaration_order_decides_between_literal_and_wildcard() {
    let doc = "images:\n  - commands: [\"ls\", \"cat\"]\n    image: first\n    dockerfile: Dockerfile\n  - commands: any\n    image: second\n    dockerfile: Dockerfile\n";
    let dirs = vec![dir("/p", doc)];
    let (_, by_literal) = matched_pending(locate(&dirs, "cat", CURRENT));
    assert_eq!(by_literal.image, "first");
    let (_, by_wildcard) = matched_pending(locate(&dirs, "edit", CURRENT));
    assert_eq!(by_wildcard.image, "second");
}

#[test]
fn version_gate_fails_before_any_matching() {
    let doc = "contain_min_version: 99.0.0\nimages:\n  - commands: any\n    image: img\n    dockerfile: Dockerfile\n";
    match evaluate_document(&parsed(doc), "lint", CURRENT) {
        DocOutcome::Halt(Error::VersionTooLow { required, current }) => {
            assert_eq!(required, "99.0.0");
            assert_eq!(current, CURRENT);
        },
        other => panic!("expected the version gate to fail, got {:?}", other),
    }
}

#[test]
fn version_gate_accepts_an_older_requirement() {
    let doc = "contain_min_version: 0.1.0\nimages:\n  - commands: any\n    image: img\n    dockerfile: Dockerfile\n";
    match evaluate_document(&parsed(doc), "lint", CURRENT) {
        DocOutcome::Matched(p) => assert_eq!(p.image, "img"),
        other => panic!("expected a match, got {:?}", other),
    }
}

#[test]
fn version_gate_accepts_an_equal_requirement() {
    let doc = "contain_min_version: 0.3.0\nimages:\n  - commands: any\n    image: img\n    dockerfile: Dockerfile\n";
    match evaluate_document(&parsed(doc), "lint", CURRENT) {
        DocOutcome::Matched(p) => assert_eq!(p.image, "img"),
        other => panic!("expected a match, got {:?}", other),
    }
}

#[test]
fn non_table_var_entries_are_passed_over() {
    let doc = "images:\n  - commands: any\n    image: img\n    dockerfile: df\n    var:\n      - stray-text\n      - name: V\n        command: echo x\n";
    match evaluate_document(&parsed(doc), "lint", CURRENT) {
        DocOutcome::Matched(p) => {
            assert_eq!(p.vars.len(), 1);
            assert_eq!(p.vars[0].name, "V");
        },
        other => panic!("expected a match, got {:?}", other),
    }
}

#[test]
fn invalid_minimum_version_is_reported() {
    let doc = "contain_min_version: not-a-version\nimages:\n  - commands: any\n    image: img\n    dockerfile: Dockerfile\n";
    match evaluate_document(&parsed(doc), "lint", CURRENT) {
        DocOutcome::Halt(Error::VersionInvalid { required }) => {
            assert_eq!(required, "not-a-version")
        },
        other => panic!("expected an invalid-version error, got {:?}", other),
    }
}

#[test]
fn missing_dockerfile_is_a_missing_field() {
    let doc = "images:\n  - commands: any\n    image: img\n";
    match evaluate_document(&parsed(doc), "lint", CURRENT) {
        DocOutcome::Halt(Error::MissingField { field }) => assert_eq!(field, "dockerfile"),
        other => panic!("expected a missing-field error, got {:?}", other),
    }
}

#[test]
fn missing_mount_source_is_index_qualified() {
    let doc = "images:\n  - commands: any\n    image: img\n    dockerfile: Dockerfile\n    mounts:\n      - type: bind\n        src: /a\n        dst: /b\n      - type: bind\n        dst: /c\n";
    match evaluate_document(&parsed(doc), "lint", CURRENT) {
        DocOutcome::Halt(Error::MissingField { field }) => assert_eq!(field, "mounts[1].src"),
        other => panic!("expected a missing-field error, got {:?}", other),
    }
}

#[test]
fn entry_without_commands_is_a_missing_field() {
    let doc = "images:\n  - image: img\n    dockerfile: Dockerfile\n";
    match evaluate_document(&parsed(doc), "lint", CURRENT) {
        DocOutcome::Halt(Error::MissingField { field }) => assert_eq!(field, "images[0].commands"),
        other => panic!("expected a missing-field error, got {:?}", other),
    }
}

#[test]
fn non_text_image_is_an_invalid_value() {
    let doc = "images:\n  - commands: any\n    image: [a, b]\n    dockerfile: Dockerfile\n";
    match evaluate_document(&parsed(doc), "lint", CURRENT) {
        DocOutcome::Halt(Error::InvalidValue { field }) => assert_eq!(field, "image"),
        other => panic!("expected an invalid-value error, got {:?}", other),
    }
}

#[test]
fn non_table_image_entry_is_an_invalid_value() {
    let doc = "images:\n  - plain-text-entry\n";
    match evaluate_document(&parsed(doc), "lint", CURRENT) {
        DocOutcome::Halt(Error::InvalidValue { field }) => assert_eq!(field, "images[0]"),
        other => panic!("expected an invalid-value error, got {:?}", other),
    }
}

#[test]
fn entry_fields_are_extracted_in_declaration_order() {
    let doc = "images:\n  - commands: any\n    image: img\n    dockerfile: df\n    name: box\n    default_shell: zsh\n    env: [\"A=1\", \"B=2\"]\n    build_args: [\"C=3\"]\n    ports: [\"8080:80\", \"9090:90\"]\n    flags: [\"k\", \"root\"]\n    var:\n      - name: V1\n        command: echo one\n      - name: V2\n        command: echo two\n";
    match evaluate_document(&parsed(doc), "build", CURRENT) {
        DocOutcome::Matched(p) => {
            assert_eq!(p.image, "img");
            assert_eq!(p.dockerfile, "df");
            assert_eq!(p.name.as_deref(), Some("box"));
            assert_eq!(p.default_shell.as_deref(), Some("zsh"));
            assert_eq!(p.env, vec!["A=1".to_string(), "B=2".to_string()]);
            assert_eq!(p.build_args, vec!["C=3".to_string()]);
            assert_eq!(p.ports, vec!["8080:80".to_string(), "9090:90".to_string()]);
            assert_eq!(p.flags, vec!["k".to_string(), "root".to_string()]);
            assert_eq!(p.vars.len(), 2);
            assert_eq!(p.vars[0].name, "V1");
            assert_eq!(p.vars[0].command, "echo one");
            assert_eq!(p.vars[1].name, "V2");
            assert_eq!(p.vars[1].command, "echo two");
        },
        other => panic!("expected a match, got {:?}", other),
    }
}

fn materialized(doc: &str, ctx: &EnvContext) -> Result<Configuration, Error> {
    match evaluate_document(&parsed(doc), "lint", CURRENT) {
        DocOutcome::Matched(p) => materialize(&p, ctx, None, "/proj".to_string()),
        other => panic!("expected a match, got {:?}", other),
    }
}

#[test]
fn environment_references_expand_against_the_context() {
    let doc = "images:\n  - commands: any\n    image: img\n    dockerfile: df\n    env: [\"TOOL_HOME=${BASE}/tool\"]\n    mounts:\n      - type: bind\n        src: $BASE/cache\n        dst: /cache\n        options: readonly\n";
    let mut ctx = EnvContext::new();
    ctx.set("BASE".to_string(), "/opt".to_string());
    let c = materialized(doc, &ctx).expect("materialization should succeed");
    assert_eq!(c.env_variables, vec!["TOOL_HOME=/opt/tool".to_string()]);
    assert_eq!(c.extra_mounts, vec!["type=bind,src=/opt/cache,dst=/cache,readonly".to_string()]);
    assert_eq!(c.workdir_path, "/workdir");
    assert_eq!(c.root_path, "/proj");
}

#[test]
fn unbound_reference_fails_materialization() {
    let doc = "images:\n  - commands: any\n    image: img\n    dockerfile: df\n    env: [\"X=ok\", \"Y=${NOT_BOUND}\"]\n";
    let ctx = EnvContext::new();
    match materialized(doc, &ctx) {
        Err(Error::ExpandFailed { field }) => assert_eq!(field, "env[1]"),
        other => panic!("expected an expansion failure, got {:?}", other),
    }
}

#[test]
fn workdir_override_replaces_the_default() {
    let doc = "images:\n  - commands: any\n    image: img\n    dockerfile: df\n";
    let ctx = EnvContext::new();
    let p = match evaluate_document(&parsed(doc), "lint", CURRENT) {
        DocOutcome::Matched(p) => p,
        other => panic!("expected a match, got {:?}", other),
    };
    let c = materialize(&p, &ctx, Some("/src".to_string()), "/proj".to_string()).unwrap();
    assert_eq!(c.workdir_path, "/src");
}

#[test]
fn resolving_twice_yields_identical_configurations() {
    let doc = "images:\n  - commands: any\n    image: img\n    dockerfile: df\n    env: [\"A=${V}\"]\n    ports: [\"1:2\"]\n";
    let dirs = vec![dir("/proj", doc)];
    let mut ctx = EnvContext::new();
    ctx.set("V".to_string(), "x".to_string());
    let (_, p1) = matched_pending(locate(&dirs, "lint", CURRENT));
    let (_, p2) = matched_pending(locate(&dirs, "lint", CURRENT));
    let c1 = materialize(&p1, &ctx, None, "/proj".to_string()).unwrap();
    let c2 = materialize(&p2, &ctx, None, "/proj".to_string()).unwrap();
    assert_eq!(c1.image, c2.image);
    assert_eq!(c1.name, c2.name);
    assert_eq!(c1.dockerfile, c2.dockerfile);
    assert_eq!(c1.root_path, c2.root_path);
    assert_eq!(c1.workdir_path, c2.workdir_path);
    assert_eq!(c1.flags, c2.flags);
    assert_eq!(c1.env_variables, c2.env_variables);
    assert_eq!(c1.build_args, c2.build_args);
    assert_eq!(c1.extra_mounts, c2.extra_mounts);
    assert_eq!(c1.ports, c2.ports);
    assert_eq!(c1.default_shell, c2.default_shell);
}

#[test]
fn var_commands_expand_and_record_their_output() {
    let mut ctx = EnvContext::new();
    ctx.set("WHO".to_string(), "world".to_string());
    let decl = VarDecl { name: "GREETING".to_string(), command: "echo hello $WHO".to_string() };
    let line = var_command_line(&decl, &ctx).expect("expansion should succeed");
    assert_eq!(line, "echo hello world");
    record_var_output(&mut ctx, &decl, true, " hello world\n").unwrap();
    assert_eq!(ctx.get("GREETING").map(|s| s.as_str()), Some("hello world"));
}

#[test]
fn failing_var_command_aborts_resolution() {
    let mut ctx = EnvContext::new();
    let decl = VarDecl { name: "V".to_string(), command: "false".to_string() };
    match record_var_output(&mut ctx, &decl, false, "") {
        Err(Error::CommandFailed { command }) => assert_eq!(command, "false"),
        other => panic!("expected a command failure, got {:?}", other),
    }
    assert!(ctx.get("V").is_none());
}

#[test]
fn later_bindings_shadow_earlier_ones() {
    let mut ctx = EnvContext::new();
    ctx.set("A".to_string(), "one".to_string());
    ctx.set("A".to_string(), "two".to_string());
    assert_eq!(ctx.get("A").map(|s| s.as_str()), Some("two"));
}
