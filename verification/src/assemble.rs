//! Deterministic construction of the ordered engine argument lists: build,
//! run, exec-into and detached-run invocations, and the translation of the
//! invoking directory into the in-container working directory.

use vstd::prelude::*;
use crate::errors::{Error, ErrorModel};
use crate::model::{Configuration, GlobalOptions, Identity};
use crate::text::{dec_spec, dec_string, str_eq, str_starts_with, trim, trim_spec, contains_string};

verus! {

/// `flag` before each item, the item trimmed: `-e A`, `-e B`, ...
pub open spec fn flagged_trimmed_spec(flag: Seq<char>, items: Seq<Seq<char>>, i: int) -> Seq<
    Seq<char>,
>
    decreases items.len() - i,
{
    if i < 0 || i >= items.len() {
        Seq::empty()
    } else {
        seq![flag, trim_spec(items[i])] + flagged_trimmed_spec(flag, items, i + 1)
    }
}

/// `flag` before each item, the item untouched.
pub open spec fn flagged_raw_spec(flag: Seq<char>, items: Seq<Seq<char>>, i: int) -> Seq<Seq<char>>
    decreases items.len() - i,
{
    if i < 0 || i >= items.len() {
        Seq::empty()
    } else {
        seq![flag, items[i]] + flagged_raw_spec(flag, items, i + 1)
    }
}

fn flagged_trimmed(flag: &str, items: &Vec<String>, i: usize) -> (r: Vec<String>)
    requires
        i <= items@.len(),
    ensures
        r.deep_view() == flagged_trimmed_spec(flag@, items.deep_view(), i as int),
    decreases items@.len() - i,
{
    if i == items.len() {
        let v: Vec<String> = Vec::new();
        proof {
            assert(v.deep_view() =~= Seq::<Seq<char>>::empty());
        }
        v
    } else {
        let rest = flagged_trimmed(flag, items, i + 1);
        let ghost old_rest = rest.deep_view();
        let mut v = rest;
        let item = trim(items[i].as_str());
        let ghost item_view = item@;
        v.insert(0, item);
        v.insert(0, flag.to_owned());
        proof {
            assert(v.deep_view() =~= seq![flag@, item_view] + old_rest);
        }
        v
    }
}

fn flagged_raw(flag: &str, items: &Vec<String>, i: usize) -> (r: Vec<String>)
    requires
        i <= items@.len(),
    ensures
        r.deep_view() == flagged_raw_spec(flag@, items.deep_view(), i as int),
    decreases items@.len() - i,
{
    if i == items.len() {
        let v: Vec<String> = Vec::new();
        proof {
            assert(v.deep_view() =~= Seq::<Seq<char>>::empty());
        }
        v
    } else {
        let rest = flagged_raw(flag, items, i + 1);
        let ghost old_rest = rest.deep_view();
        let mut v = rest;
        let item = items[i].clone();
        let ghost item_view = item@;
        v.insert(0, item);
        v.insert(0, flag.to_owned());
        proof {
            assert(v.deep_view() =~= seq![flag@, item_view] + old_rest);
        }
        v
    }
}

/// The numeric `uid:gid` mapping handed to the engine.
pub open spec fn uid_gid_spec(uid: u32, gid: u32) -> Seq<char> {
    dec_spec(uid as nat) + ":"@ + dec_spec(gid as nat)
}

fn uid_gid_string(uid: u32, gid: u32) -> (r: String)
    ensures
        r@ == uid_gid_spec(uid, gid),
{
    let mut r = dec_string(uid as u64);
    r.append(":");
    r.append(dec_string(gid as u64).as_str());
    r
}

/// The bind mount that places the resolved root at the in-container workdir.
pub open spec fn workspace_mount_spec(root: Seq<char>, workdir: Seq<char>) -> Seq<char> {
    "type=bind,src="@ + root + ",dst="@ + workdir
}

fn workspace_mount(root: &str, workdir: &str) -> (r: String)
    ensures
        r@ == workspace_mount_spec(root@, workdir@),
{
    let mut r = "type=bind,src=".to_owned();
    r.append(root);
    r.append(",dst=");
    r.append(workdir);
    r
}

/// Whether the user mapping is suppressed: the command-line override or the
/// configuration's `root` flag, either alone, removes it.
pub open spec fn as_root_spec(flags: Seq<Seq<char>>, run_as_root: bool) -> bool {
    run_as_root || flags.contains("root"@)
}

/// The in-container working directory: the invoking directory's path relative
/// to the resolved root, prefixed with the workdir mount point. Paths are
/// compared textually; a directory that is not under the root is a path
/// error.
pub open spec fn container_dir_spec(
    cwd: Seq<char>,
    root: Seq<char>,
    workdir: Seq<char>,
) -> Result<Seq<char>, ErrorModel> {
    if cwd == root {
        Result::Ok(workdir + "/"@)
    } else if root.is_prefix_of(cwd) && root.len() < cwd.len() && cwd[root.len() as int] == '/' {
        Result::Ok(workdir + "/"@ + cwd.subrange(root.len() as int + 1, cwd.len() as int))
    } else if root.is_prefix_of(cwd) && root.len() > 0 && root.last() == '/' {
        Result::Ok(workdir + "/"@ + cwd.subrange(root.len() as int, cwd.len() as int))
    } else {
        Result::Err(ErrorModel::PathOutsideRoot { current: cwd, root })
    }
}

/// Translates the invoking directory into the in-container working directory.
pub fn container_dir(cwd: &str, root: &str, workdir: &str) -> (r: Result<String, Error>)
    ensures
        (match r {
            Result::Ok(d) => container_dir_spec(cwd@, root@, workdir@) == Result::Ok::<
                Seq<char>,
                ErrorModel,
            >(d@),
            Result::Err(e) => container_dir_spec(cwd@, root@, workdir@) == Result::Err::<
                Seq<char>,
                ErrorModel,
            >(e@),
        }),
{
    if str_eq(cwd, root) {
        let mut d = workdir.to_owned();
        d.append("/");
        return Result::Ok(d);
    }
    let root_len = root.unicode_len();
    let cwd_len = cwd.unicode_len();
    if str_starts_with(cwd, root) {
        if root_len < cwd_len && cwd.get_char(root_len) == '/' {
            let mut d = workdir.to_owned();
            d.append("/");
            d.append(cwd.substring_char(root_len + 1, cwd_len));
            return Result::Ok(d);
        }
        if root_len > 0 && root.get_char(root_len - 1) == '/' {
            let mut d = workdir.to_owned();
            d.append("/");
            d.append(cwd.substring_char(root_len, cwd_len));
            return Result::Ok(d);
        }
    }
    Result::Err(
        Error::PathOutsideRoot { current: cwd.to_owned(), root: root.to_owned() },
    )
}

/// The ordered arguments of an image build: the identity build arguments
/// (numeric user id, group id, user name, workdir path) come first so that an
/// image can create a matching in-container user, then the entry's own build
/// arguments, each trimmed, then target image, dockerfile and context
/// directory.
pub open spec fn build_args_spec(
    image: Seq<char>,
    dockerfile: Seq<char>,
    context_dir: Seq<char>,
    workdir: Seq<char>,
    uid: u32,
    gid: u32,
    username: Seq<char>,
    user_args: Seq<Seq<char>>,
) -> Seq<Seq<char>> {
    seq![
        "build"@,
        "--build-arg"@,
        "uid="@ + dec_spec(uid as nat),
        "--build-arg"@,
        "gid="@ + dec_spec(gid as nat),
        "--build-arg"@,
        "username="@ + username,
        "--build-arg"@,
        "workdir_path="@ + workdir,
    ] + flagged_trimmed_spec("--build-arg"@, user_args, 0) + seq![
        "-t"@,
        image,
        "-f"@,
        dockerfile,
        context_dir,
    ]
}

/// Assembles the engine invocation that builds the image.
pub fn assemble_build_args(c: &Configuration, ident: &Identity) -> (r: Vec<String>)
    ensures
        r.deep_view() == build_args_spec(
            c@.image,
            c@.dockerfile,
            c@.root_path,
            c@.workdir_path,
            ident.uid,
            ident.gid,
            ident@.username,
            c@.build_args,
        ),
{
    let mut v: Vec<String> = Vec::new();
    v.push("build".to_owned());
    v.push("--build-arg".to_owned());
    let mut uid_arg = "uid=".to_owned();
    uid_arg.append(dec_string(ident.uid as u64).as_str());
    v.push(uid_arg);
    v.push("--build-arg".to_owned());
    let mut gid_arg = "gid=".to_owned();
    gid_arg.append(dec_string(ident.gid as u64).as_str());
    v.push(gid_arg);
    v.push("--build-arg".to_owned());
    let mut user_arg = "username=".to_owned();
    user_arg.append(ident.username.as_str());
    v.push(user_arg);
    v.push("--build-arg".to_owned());
    let mut wd_arg = "workdir_path=".to_owned();
    wd_arg.append(c.workdir_path.as_str());
    v.push(wd_arg);
    let ghost head = v.deep_view();
    let mut flagged = flagged_trimmed("--build-arg", &c.build_args, 0);
    v.append(&mut flagged);
    let ghost mid = v.deep_view();
    v.push("-t".to_owned());
    v.push(c.image.clone());
    v.push("-f".to_owned());
    v.push(c.dockerfile.clone());
    v.push(c.root_path.clone());
    proof {
        assert(mid =~= head + flagged_trimmed_spec("--build-arg"@, c@.build_args, 0));
        assert(v.deep_view() =~= build_args_spec(
            c@.image,
            c@.dockerfile,
            c@.root_path,
            c@.workdir_path,
            ident.uid,
            ident.gid,
            ident@.username,
            c@.build_args,
        ));
    }
    v
}

use crate::model::{ConfigModel, OptionsModel};

/// The ordered arguments of a fresh container run: verb, container name
/// (unless suppressed), user mapping (unless either flag source says root),
/// ephemeral cleanup (unless either source says keep), interactive and
/// privileged toggles, working directory, environment assignments
/// (configuration first, command line after), the workspace bind mount, the
/// declared extra mounts, the port mappings (all suppressed by `skip_ports`),
/// the image, the command, and the command's own arguments untouched.
pub open spec fn run_args_spec(
    c: ConfigModel,
    o: OptionsModel,
    uid: u32,
    gid: u32,
    dir: Seq<char>,
    cmd: Seq<char>,
    args: Seq<Seq<char>>,
) -> Seq<Seq<char>> {
    seq!["run"@] + (match c.name {
        Option::Some(n) => if o.skip_name {
            Seq::empty()
        } else {
            seq!["--name"@, n]
        },
        Option::None => Seq::empty(),
    }) + (if as_root_spec(c.flags, o.run_as_root) {
        Seq::empty()
    } else {
        seq!["-u"@, uid_gid_spec(uid, gid)]
    }) + (if o.keep_container || c.flags.contains("k"@) {
        Seq::empty()
    } else {
        seq!["--rm"@]
    }) + (if o.interactive || c.flags.contains("i"@) {
        seq!["-it"@]
    } else {
        Seq::empty()
    }) + (if c.flags.contains("privileged"@) {
        seq!["--privileged"@]
    } else {
        Seq::empty()
    }) + seq!["-w"@, dir] + flagged_trimmed_spec("-e"@, c.env_variables + o.cli_env_variables, 0)
        + seq!["--mount"@, workspace_mount_spec(c.root_path, c.workdir_path)] + flagged_raw_spec(
        "--mount"@,
        c.extra_mounts,
        0,
    ) + (if o.skip_ports {
        Seq::empty()
    } else {
        flagged_raw_spec("-p"@, c.ports, 0)
    }) + seq![c.image, cmd] + args
}

/// Assembles the engine invocation that runs the command in a fresh
/// container.
#[verifier::rlimit(100)]
#[verifier::spinoff_prover]
pub fn assemble_run_args(
    c: &Configuration,
    o: &GlobalOptions,
    uid: u32,
    gid: u32,
    dir: &str,
    cmd: &str,
    args: &Vec<String>,
) -> (r: Vec<String>)
    ensures
        r.deep_view() == run_args_spec(c@, o@, uid, gid, dir@, cmd@, args.deep_view()),
{
    let mut v: Vec<String> = Vec::new();
    v.push("run".to_owned());
    let ghost g_name: Seq<Seq<char>> = match c@.name {
        Option::Some(n) => if o@.skip_name {
            Seq::empty()
        } else {
            seq!["--name"@, n]
        },
        Option::None => Seq::empty(),
    };
    match &c.name {
        Option::Some(n) => {
            if !o.skip_name {
                v.push("--name".to_owned());
                v.push(n.clone());
            }
        },
        Option::None => {},
    }
    let ghost acc1 = seq!["run"@] + g_name;
    proof {
        assert(v.deep_view() =~= acc1);
    }
    let ghost g_user: Seq<Seq<char>> = if as_root_spec(c@.flags, o@.run_as_root) {
        Seq::empty()
    } else {
        seq!["-u"@, uid_gid_spec(uid, gid)]
    };
    if !o.run_as_root && !contains_string(&c.flags, "root") {
        v.push("-u".to_owned());
        v.push(uid_gid_string(uid, gid));
    }
    let ghost acc2 = acc1 + g_user;
    proof {
        assert(v.deep_view() =~= acc2);
    }
    let ghost g_rm: Seq<Seq<char>> = if o@.keep_container || c@.flags.contains("k"@) {
        Seq::empty()
    } else {
        seq!["--rm"@]
    };
    if !o.keep_container && !contains_string(&c.flags, "k") {
        v.push("--rm".to_owned());
    }
    let ghost acc3 = acc2 + g_rm;
    proof {
        assert(v.deep_view() =~= acc3);
    }
    let ghost g_it: Seq<Seq<char>> = if o@.interactive || c@.flags.contains("i"@) {
        seq!["-it"@]
    } else {
        Seq::empty()
    };
    if o.interactive || contains_string(&c.flags, "i") {
        v.push("-it".to_owned());
    }
    let ghost acc4 = acc3 + g_it;
    proof {
        assert(v.deep_view() =~= acc4);
    }
    let ghost g_priv: Seq<Seq<char>> = if c@.flags.contains("privileged"@) {
        seq!["--privileged"@]
    } else {
        Seq::empty()
    };
    if contains_string(&c.flags, "privileged") {
        v.push("--privileged".to_owned());
    }
    let ghost acc5 = acc4 + g_priv;
    proof {
        assert(v.deep_view() =~= acc5);
    }
    v.push("-w".to_owned());
    v.push(dir.to_owned());
    let ghost acc6 = acc5 + seq!["-w"@, dir@];
    proof {
        assert(v.deep_view() =~= acc6);
    }
    let mut all_env = c.env_variables.clone();
    let mut cli_env = o.cli_env_variables.clone();
    all_env.append(&mut cli_env);
    proof {
        assert(all_env.deep_view() =~= c@.env_variables + o@.cli_env_variables);
    }
    let mut envs = flagged_trimmed("-e", &all_env, 0);
    v.append(&mut envs);
    let ghost acc7 = acc6 + flagged_trimmed_spec("-e"@, c@.env_variables + o@.cli_env_variables, 0);
    proof {
        assert(v.deep_view() =~= acc7);
    }
    v.push("--mount".to_owned());
    v.push(workspace_mount(c.root_path.as_str(), c.workdir_path.as_str()));
    let ghost acc8 = acc7 + seq![
        "--mount"@,
        workspace_mount_spec(c@.root_path, c@.workdir_path),
    ];
    proof {
        assert(v.deep_view() =~= acc8);
    }
    let mut extra = flagged_raw("--mount", &c.extra_mounts, 0);
    v.append(&mut extra);
    let ghost acc9 = acc8 + flagged_raw_spec("--mount"@, c@.extra_mounts, 0);
    proof {
        assert(v.deep_view() =~= acc9);
    }
    let ghost g_ports: Seq<Seq<char>> = if o@.skip_ports {
        Seq::empty()
    } else {
        flagged_raw_spec("-p"@, c@.ports, 0)
    };
    if !o.skip_ports {
        let mut ports = flagged_raw("-p", &c.ports, 0);
        v.append(&mut ports);
    }
    let ghost acc10 = acc9 + g_ports;
    proof {
        assert(v.deep_view() =~= acc10);
    }
    v.push(c.image.clone());
    v.push(cmd.to_owned());
    let mut tail = args.clone();
    v.append(&mut tail);
    proof {
        assert(v.deep_view() =~= acc10 + seq![c@.image, cmd@] + args.deep_view());
        assert(v.deep_view() =~= run_args_spec(c@, o@, uid, gid, dir@, cmd@, args.deep_view()));
    }
    v
}

/// The ordered arguments of an exec into a running container: verb,
/// interactive toggle, user mapping (unless either source says root), working
/// directory, environment assignments, the container name, the command, and
/// its arguments untouched.
pub open spec fn exec_args_spec(
    c: ConfigModel,
    o: OptionsModel,
    uid: u32,
    gid: u32,
    dir: Seq<char>,
    name: Seq<char>,
    cmd: Seq<char>,
    args: Seq<Seq<char>>,
) -> Seq<Seq<char>> {
    seq!["exec"@, "-it"@] + (if as_root_spec(c.flags, o.run_as_root) {
        Seq::empty()
    } else {
        seq!["-u"@, uid_gid_spec(uid, gid)]
    }) + seq!["-w"@, dir] + flagged_trimmed_spec("-e"@, c.env_variables + o.cli_env_variables, 0)
        + seq![name, cmd] + args
}

/// Assembles the engine invocation that executes the command inside the
/// already running named container.
pub fn assemble_exec_args(
    c: &Configuration,
    o: &GlobalOptions,
    uid: u32,
    gid: u32,
    dir: &str,
    name: &str,
    cmd: &str,
    args: &Vec<String>,
) -> (r: Vec<String>)
    ensures
        r.deep_view() == exec_args_spec(c@, o@, uid, gid, dir@, name@, cmd@, args.deep_view()),
{
    let mut v: Vec<String> = Vec::new();
    v.push("exec".to_owned());
    v.push("-it".to_owned());
    if !o.run_as_root && !contains_string(&c.flags, "root") {
        v.push("-u".to_owned());
        v.push(uid_gid_string(uid, gid));
    }
    v.push("-w".to_owned());
    v.push(dir.to_owned());
    let mut all_env = c.env_variables.clone();
    let mut cli_env = o.cli_env_variables.clone();
    all_env.append(&mut cli_env);
    proof {
        assert(all_env.deep_view() =~= c@.env_variables + o@.cli_env_variables);
    }
    let mut envs = flagged_trimmed("-e", &all_env, 0);
    v.append(&mut envs);
    v.push(name.to_owned());
    v.push(cmd.to_owned());
    let mut tail = args.clone();
    v.append(&mut tail);
    proof {
        assert(v.deep_view() =~= exec_args_spec(
            c@,
            o@,
            uid,
            gid,
            dir@,
            name@,
            cmd@,
            args.deep_view(),
        ));
    }
    v
}

/// The ordered arguments that launch the named container detached with an
/// inert long-running command, so that later invocations have a target. A
/// background container ignores the keep, interactive and skip-name toggles:
/// it always carries its name and is never removed on exit by the engine.
pub open spec fn up_args_spec(
    c: ConfigModel,
    o: OptionsModel,
    uid: u32,
    gid: u32,
    dir: Seq<char>,
    name: Seq<char>,
) -> Seq<Seq<char>> {
    seq!["run"@, "-d"@, "--name"@, name] + (if as_root_spec(c.flags, o.run_as_root) {
        Seq::empty()
    } else {
        seq!["-u"@, uid_gid_spec(uid, gid)]
    }) + (if c.flags.contains("privileged"@) {
        seq!["--privileged"@]
    } else {
        Seq::empty()
    }) + seq!["-w"@, dir] + flagged_trimmed_spec("-e"@, c.env_variables + o.cli_env_variables, 0)
        + seq!["--mount"@, workspace_mount_spec(c.root_path, c.workdir_path)] + flagged_raw_spec(
        "--mount"@,
        c.extra_mounts,
        0,
    ) + (if o.skip_ports {
        Seq::empty()
    } else {
        flagged_raw_spec("-p"@, c.ports, 0)
    }) + seq![c.image, "sleep"@, "infinity"@]
}

/// Assembles the engine invocation that launches the long-lived background
/// container.
pub fn assemble_up_args(
    c: &Configuration,
    o: &GlobalOptions,
    uid: u32,
    gid: u32,
    dir: &str,
    name: &str,
) -> (r: Vec<String>)
    ensures
        r.deep_view() == up_args_spec(c@, o@, uid, gid, dir@, name@),
{
    let mut v: Vec<String> = Vec::new();
    v.push("run".to_owned());
    v.push("-d".to_owned());
    v.push("--name".to_owned());
    v.push(name.to_owned());
    if !o.run_as_root && !contains_string(&c.flags, "root") {
        v.push("-u".to_owned());
        v.push(uid_gid_string(uid, gid));
    }
    if contains_string(&c.flags, "privileged") {
        v.push("--privileged".to_owned());
    }
    v.push("-w".to_owned());
    v.push(dir.to_owned());
    let mut all_env = c.env_variables.clone();
    let mut cli_env = o.cli_env_variables.clone();
    all_env.append(&mut cli_env);
    proof {
        assert(all_env.deep_view() =~= c@.env_variables + o@.cli_env_variables);
    }
    let mut envs = flagged_trimmed("-e", &all_env, 0);
    v.append(&mut envs);
    v.push("--mount".to_owned());
    v.push(workspace_mount(c.root_path.as_str(), c.workdir_path.as_str()));
    let mut extra = flagged_raw("--mount", &c.extra_mounts, 0);
    v.append(&mut extra);
    if !o.skip_ports {
        let mut ports = flagged_raw("-p", &c.ports, 0);
        v.append(&mut ports);
    }
    v.push(c.image.clone());
    v.push("sleep".to_owned());
    v.push("infinity".to_owned());
    proof {
        assert(v.deep_view() =~= up_args_spec(c@, o@, uid, gid, dir@, name@));
    }
    v
}

} // verus!
