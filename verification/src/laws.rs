//! Cross-cutting guarantees of the engine, stated and proved over the same
//! spec functions that the executable functions' contracts use.

use vstd::prelude::*;
use crate::document::DocState;
use crate::errors::ErrorModel;
use crate::assemble::run_args_spec;
use crate::lifecycle::{
    spec_step, ActionModel, EngineEvent, NoteModel, Orchestrator, Phase, Subcommand,
};
use crate::model::{ConfigModel, OptionsModel};
use crate::resolve::{
    commands_value_matches, entry_verdict, evaluate_spec, locate_from, locate_spec,
    materialize_spec, scan_entries_from, text_matches, version_gate_spec, DirDoc, DocOutcomeModel,
    EntryVerdict, LocateModel, PendingModel, ScanModel,
};
use crate::document::RawValue;

verus! {

/// Whether the walk passes this directory over: no document, or a document
/// whose entries are acceptable but match nothing.
pub open spec fn dir_continues(d: DirDoc, cmd: Seq<char>, current: Seq<char>) -> bool {
    match d.doc {
        DocState::Missing => true,
        DocState::Unparsable => false,
        DocState::Parsed(fields) => evaluate_spec(fields@, cmd, current) is NoMatch,
    }
}

proof fn lemma_locate_skips(dirs: Seq<DirDoc>, cmd: Seq<char>, current: Seq<char>, i: int, j: int)
    requires
        0 <= i <= j <= dirs.len(),
        forall|k: int| i <= k < j ==> dir_continues(dirs[k], cmd, current),
    ensures
        locate_from(dirs, cmd, current, i) == locate_from(dirs, cmd, current, j),
    decreases j - i,
{
    if i < j {
        assert(dir_continues(dirs[i], cmd, current));
        lemma_locate_skips(dirs, cmd, current, i + 1, j);
    }
}

/// When an ancestor chain holds a matching document at depth `index` and
/// every nearer directory is passed over, resolution returns exactly the
/// entry of depth `index`: the nearest match, never a farther one, whatever
/// the farther directories hold. The premise asks of each nearer directory
/// the only two things that continue the walk — no document, or an
/// acceptable document with no matching entry. It cannot be weaker: a nearer
/// document that fails to parse, fails the version gate or holds a malformed
/// entry halts the walk with that error instead of reaching `index`, by the
/// policy that an existing but unacceptable document is fatal.
pub proof fn lemma_nearest_match_wins(
    dirs: Seq<DirDoc>,
    cmd: Seq<char>,
    current: Seq<char>,
    index: int,
)
    requires
        0 <= index < dirs.len(),
        forall|j: int| 0 <= j < index ==> dir_continues(#[trigger] dirs[j], cmd, current),
        dirs[index].doc is Parsed,
        evaluate_spec(dirs[index].doc->Parsed_0@, cmd, current) is Matched,
    ensures
        locate_spec(dirs, cmd, current) == (LocateModel::Matched {
            root_index: index,
            pending: evaluate_spec(dirs[index].doc->Parsed_0@, cmd, current)->Matched_0,
        }),
{
    lemma_locate_skips(dirs, cmd, current, 0, index);
}

/// A document that exists but does not parse stops the walk at its directory
/// with a configuration error; it is never treated as absent, whatever the
/// farther directories hold.
pub proof fn lemma_unparsable_document_halts(
    dirs: Seq<DirDoc>,
    cmd: Seq<char>,
    current: Seq<char>,
    index: int,
)
    requires
        0 <= index < dirs.len(),
        forall|j: int| 0 <= j < index ==> dir_continues(#[trigger] dirs[j], cmd, current),
        dirs[index].doc is Unparsable,
    ensures
        locate_spec(dirs, cmd, current) == (LocateModel::Halted {
            error: ErrorModel::ConfigParse { path: dirs[index].path@ },
        }),
{
    lemma_locate_skips(dirs, cmd, current, 0, index);
}

/// A `commands` value that carries the wildcard matches every requested
/// command name.
pub proof fn lemma_wildcard_matches_every_command(v: RawValue, cmd: Seq<char>)
    requires
        (match v {
            RawValue::Text(s) => s@ == "any"@,
            RawValue::List(items) => exists|i: int|
                0 <= i < items@.len() && #[trigger] text_matches(items@[i], "any"@),
            RawValue::Table(_) => false,
        }),
    ensures
        commands_value_matches(v, cmd),
{
    match v {
        RawValue::Text(s) => {},
        RawValue::List(items) => {
            let i = choose|i: int|
                0 <= i < items@.len() && #[trigger] text_matches(items@[i], "any"@);
            assert(items@[i] is Text);
            assert(text_matches(items@[i], cmd));
        },
        RawValue::Table(_) => {},
    }
}

/// Entries are tried in declaration order and the first whose `commands`
/// matches is taken; a literal match has no priority over the wildcard
/// beyond that order.
pub proof fn lemma_declaration_order_decides(entries: Seq<RawValue>, cmd: Seq<char>, index: int)
    requires
        0 <= index < entries.len(),
        entry_verdict(entries[index], cmd) == EntryVerdict::Matches,
        forall|k: int|
            0 <= k < index ==> entry_verdict(#[trigger] entries[k], cmd) == EntryVerdict::Skips,
    ensures
        scan_entries_from(entries, cmd, 0) == (ScanModel::Found { index }),
{
    lemma_scan_skips(entries, cmd, 0, index);
}

proof fn lemma_scan_skips(entries: Seq<RawValue>, cmd: Seq<char>, i: int, index: int)
    requires
        0 <= i <= index < entries.len(),
        entry_verdict(entries[index], cmd) == EntryVerdict::Matches,
        forall|k: int|
            i <= k < index ==> entry_verdict(#[trigger] entries[k], cmd) == EntryVerdict::Skips,
    ensures
        scan_entries_from(entries, cmd, i) == (ScanModel::Found { index }),
    decreases index - i,
{
    if i < index {
        lemma_scan_skips(entries, cmd, i + 1, index);
    }
}

/// Resolution is a function of its inputs: walking equal document sequences
/// yields equal outcomes, and materializing equal entries under equal
/// bindings yields field-for-field equal configurations. Together with each
/// executable function's contract, which pins its result to these functions,
/// resolving twice with no filesystem change returns identical
/// configurations (variable command re-execution aside: the bindings are
/// explicit inputs here).
pub proof fn lemma_resolution_round_trip(
    dirs1: Seq<DirDoc>,
    dirs2: Seq<DirDoc>,
    cmd: Seq<char>,
    current: Seq<char>,
    p1: PendingModel,
    p2: PendingModel,
    m1: Map<Seq<char>, Seq<char>>,
    m2: Map<Seq<char>, Seq<char>>,
    w: Option<Seq<char>>,
    root: Seq<char>,
)
    requires
        dirs1 == dirs2,
        p1 == p2,
        m1 == m2,
    ensures
        locate_spec(dirs1, cmd, current) == locate_spec(dirs2, cmd, current),
        materialize_spec(p1, m1, w, root) == materialize_spec(p2, m2, w, root),
{
}

/// The version gate is decided before any command matching: a document whose
/// gate fails halts resolution whatever its entries hold.
pub proof fn lemma_version_gate_first(
    fields: Seq<(String, RawValue)>,
    cmd: Seq<char>,
    current: Seq<char>,
)
    requires
        version_gate_spec(fields, current) is Some,
    ensures
        evaluate_spec(fields, cmd, current) == DocOutcomeModel::Halt(
            version_gate_spec(fields, current)->Some_0,
        ),
{
}

/// With the root override set, the run arguments carry no user mapping: they
/// do not depend on the numeric ids at all, whatever the configuration's own
/// flags say.
pub proof fn lemma_root_removes_user_mapping(
    c: ConfigModel,
    o: OptionsModel,
    uid1: u32,
    gid1: u32,
    uid2: u32,
    gid2: u32,
    dir: Seq<char>,
    cmd: Seq<char>,
    args: Seq<Seq<char>>,
)
    requires
        o.run_as_root,
    ensures
        run_args_spec(c, o, uid1, gid1, dir, cmd, args) == run_args_spec(
            c,
            o,
            uid2,
            gid2,
            dir,
            cmd,
            args,
        ),
{
}

/// The command-line keep flag and the configuration flag `k` are equivalent
/// and idempotent: once the configuration says `k`, the command-line toggle
/// changes nothing.
pub proof fn lemma_keep_sources_equivalent(
    c: ConfigModel,
    o: OptionsModel,
    uid: u32,
    gid: u32,
    dir: Seq<char>,
    cmd: Seq<char>,
    args: Seq<Seq<char>>,
)
    requires
        c.flags.contains("k"@),
    ensures
        run_args_spec(c, OptionsModel { keep_container: true, ..o }, uid, gid, dir, cmd, args)
            == run_args_spec(
            c,
            OptionsModel { keep_container: false, ..o },
            uid,
            gid,
            dir,
            cmd,
            args,
        ),
{
}

/// With the keep toggle set, declaring the configuration flag `k` as well
/// changes nothing: the sources combine idempotently.
pub proof fn lemma_keep_flag_idempotent(
    c: ConfigModel,
    o: OptionsModel,
    uid: u32,
    gid: u32,
    dir: Seq<char>,
    cmd: Seq<char>,
    args: Seq<Seq<char>>,
)
    requires
        o.keep_container,
    ensures
        run_args_spec(ConfigModel { flags: c.flags.push("k"@), ..c }, o, uid, gid, dir, cmd, args)
            == run_args_spec(c, o, uid, gid, dir, cmd, args),
{
    reveal_strlit("k");
    reveal_strlit("root");
    reveal_strlit("i");
    reveal_strlit("privileged");
    assert("k"@.len() == 1 && "root"@.len() == 4 && "i"@.len() == 1 && "privileged"@.len() == 10);
    assert("k"@[0] == 'k' && "i"@[0] == 'i');
    lemma_push_keeps_other_membership(c.flags, "k"@, "root"@);
    lemma_push_keeps_other_membership(c.flags, "k"@, "i"@);
    lemma_push_keeps_other_membership(c.flags, "k"@, "privileged"@);
}

proof fn lemma_push_keeps_other_membership(s: Seq<Seq<char>>, x: Seq<char>, y: Seq<char>)
    requires
        x != y,
    ensures
        s.push(x).contains(y) == s.contains(y),
{
    if s.push(x).contains(y) {
        let i = choose|i: int| 0 <= i < s.push(x).len() && s.push(x)[i] == y;
        if i < s.len() {
            assert(s[i] == y);
        }
    }
    if s.contains(y) {
        let i = choose|i: int| 0 <= i < s.len() && s[i] == y;
        assert(s.push(x)[i] == y);
    }
}

/// With ports skipped, the run arguments equal those of the same
/// configuration with no ports declared at all: every port mapping is
/// removed even when the configuration declares some.
pub proof fn lemma_skip_ports_removes_ports(
    c: ConfigModel,
    o: OptionsModel,
    uid: u32,
    gid: u32,
    dir: Seq<char>,
    cmd: Seq<char>,
    args: Seq<Seq<char>>,
)
    requires
        o.skip_ports,
    ensures
        run_args_spec(c, o, uid, gid, dir, cmd, args) == run_args_spec(
            ConfigModel { ports: Seq::empty(), ..c },
            o,
            uid,
            gid,
            dir,
            cmd,
            args,
        ),
{
}

/// Inside a container, the background-container subcommands never reach the
/// engine: their very first transition ends the orchestration, `up` and
/// `down` with a refusal and `status` with an informational report.
pub proof fn lemma_passthrough_never_drives_the_engine(o: Orchestrator)
    requires
        o.phase == Phase::Start,
        o.passthrough,
        o.cfg.name is Some,
    ensures
        o.sub == Subcommand::Up ==> spec_step(o, EngineEvent::Begin).action == ActionModel::Fail(
            ErrorModel::InsideContainer { subcommand: "up"@ },
        ),
        o.sub == Subcommand::Down ==> spec_step(o, EngineEvent::Begin).action == ActionModel::Fail(
            ErrorModel::InsideContainer { subcommand: "down"@ },
        ),
        o.sub == Subcommand::Status ==> spec_step(o, EngineEvent::Begin).action
            == (ActionModel::Finish { code: 0, note: Option::Some(NoteModel::InsideContainer) }),
        o.sub == Subcommand::Up || o.sub == Subcommand::Down || o.sub == Subcommand::Status
            ==> spec_step(o, EngineEvent::Begin).phase == Phase::Done,
{
}

} // verus!
