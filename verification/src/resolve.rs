//! Evaluation of configuration documents: the version gate, matching the
//! requested command against the document's image entries, extraction and
//! validation of the matched entry, the upward walk over ancestor
//! directories, and materialization of the final configuration once variable
//! commands have run.

use vstd::prelude::*;
use crate::document::{table_get, table_get_spec, DocState, RawValue};
use crate::errors::{Error, ErrorModel};
use crate::expand::{expand_env, expand_env_of, EnvContext};
use crate::model::{ConfigModel, Configuration};
use crate::text::{dec_spec, dec_string, str_eq, trim, trim_spec};
use crate::version::{semver_lt, version_less_than};

verus! {

/// One `var` declaration of an image entry: an environment variable name and
/// the shell command whose trimmed output becomes its value.
#[derive(Debug, Clone)]
pub struct VarDecl {
    pub name: String,
    pub command: String,
}

/// Spec-level shape of a [`VarDecl`].
pub struct VarModel {
    pub name: Seq<char>,
    pub command: Seq<char>,
}

impl View for VarDecl {
    type V = VarModel;

    open spec fn view(&self) -> VarModel {
        VarModel { name: self.name@, command: self.command@ }
    }
}

/// One `mounts` declaration of an image entry, fields still unexpanded.
#[derive(Debug, Clone)]
pub struct MountDecl {
    pub mount_type: String,
    pub src: String,
    pub dst: String,
    pub options: Option<String>,
}

/// Spec-level shape of a [`MountDecl`].
pub struct MountModel {
    pub mount_type: Seq<char>,
    pub src: Seq<char>,
    pub dst: Seq<char>,
    pub options: Option<Seq<char>>,
}

impl View for MountDecl {
    type V = MountModel;

    open spec fn view(&self) -> MountModel {
        MountModel {
            mount_type: self.mount_type@,
            src: self.src@,
            dst: self.dst@,
            options: match self.options {
                Option::Some(o) => Option::Some(o@),
                Option::None => Option::None,
            },
        }
    }
}

/// A matched and validated image entry, before its variable commands have run
/// and before environment expansion.
#[derive(Debug, Clone)]
pub struct PendingConfig {
    pub image: String,
    pub name: Option<String>,
    pub dockerfile: String,
    pub default_shell: Option<String>,
    pub vars: Vec<VarDecl>,
    pub env: Vec<String>,
    pub build_args: Vec<String>,
    pub mounts: Vec<MountDecl>,
    pub ports: Vec<String>,
    pub flags: Vec<String>,
}

/// Spec-level shape of a [`PendingConfig`].
pub struct PendingModel {
    pub image: Seq<char>,
    pub name: Option<Seq<char>>,
    pub dockerfile: Seq<char>,
    pub default_shell: Option<Seq<char>>,
    pub vars: Seq<VarModel>,
    pub env: Seq<Seq<char>>,
    pub build_args: Seq<Seq<char>>,
    pub mounts: Seq<MountModel>,
    pub ports: Seq<Seq<char>>,
    pub flags: Seq<Seq<char>>,
}

impl View for PendingConfig {
    type V = PendingModel;

    open spec fn view(&self) -> PendingModel {
        PendingModel {
            image: self.image@,
            name: match self.name {
                Option::Some(n) => Option::Some(n@),
                Option::None => Option::None,
            },
            dockerfile: self.dockerfile@,
            default_shell: match self.default_shell {
                Option::Some(s) => Option::Some(s@),
                Option::None => Option::None,
            },
            vars: self.vars@.map_values(|v: VarDecl| v@),
            env: self.env.deep_view(),
            build_args: self.build_args.deep_view(),
            mounts: self.mounts@.map_values(|m: MountDecl| m@),
            ports: self.ports.deep_view(),
            flags: self.flags.deep_view(),
        }
    }
}

/// Whether one element of a `commands` list matches the requested command:
/// it is text and is either the command itself or the wildcard.
pub open spec fn text_matches(v: RawValue, cmd: Seq<char>) -> bool {
    match v {
        RawValue::Text(s) => s@ == cmd || s@ == "any"@,
        _ => false,
    }
}

/// Whether a `commands` value matches the requested command: a single text
/// value is compared directly, a list matches when any element does, and
/// anything else matches nothing.
pub open spec fn commands_value_matches(v: RawValue, cmd: Seq<char>) -> bool {
    match v {
        RawValue::Text(_) => text_matches(v, cmd),
        RawValue::List(items) => exists|i: int|
            0 <= i < items@.len() && #[trigger] text_matches(items@[i], cmd),
        RawValue::Table(_) => false,
    }
}

fn text_matches_exec(v: &RawValue, cmd: &str) -> (r: bool)
    ensures
        r == text_matches(*v, cmd@),
{
    match v {
        RawValue::Text(s) => str_eq(s.as_str(), cmd) || str_eq(s.as_str(), "any"),
        _ => false,
    }
}

#[verifier::loop_isolation(false)]
fn commands_value_matches_exec(v: &RawValue, cmd: &str) -> (r: bool)
    ensures
        r == commands_value_matches(*v, cmd@),
{
    match v {
        RawValue::Text(_) => text_matches_exec(v, cmd),
        RawValue::List(items) => {
            let mut i: usize = 0;
            while i < items.len()
                invariant
                    i <= items@.len(),
                    forall|j: int| 0 <= j < i ==> !#[trigger] text_matches(items@[j], cmd@),
                decreases items@.len() - i,
            {
                if text_matches_exec(&items[i], cmd) {
                    proof {
                        assert(exists|j: int|
                            0 <= j < items@.len() && #[trigger] text_matches(items@[j], cmd@));
                    }
                    return true;
                }
                i += 1;
            }
            false
        },
        RawValue::Table(_) => false,
    }
}

/// How one image entry relates to the requested command.
#[derive(Debug, Clone, Copy, PartialEq, Eq, Structural)]
pub enum EntryVerdict {
    /// The entry's `commands` field matches the command.
    Matches,
    /// The entry is well-formed but does not match.
    Skips,
    /// The entry is a table without a `commands` field.
    MissingCommands,
    /// The entry is not a table at all.
    NotTable,
}

/// The verdict of one image entry for the requested command.
pub open spec fn entry_verdict(entry: RawValue, cmd: Seq<char>) -> EntryVerdict {
    match entry {
        RawValue::Table(fields) => match table_get_spec(fields@, "commands"@) {
            Option::Some(v) => if commands_value_matches(v, cmd) {
                EntryVerdict::Matches
            } else {
                EntryVerdict::Skips
            },
            Option::None => EntryVerdict::MissingCommands,
        },
        _ => EntryVerdict::NotTable,
    }
}

fn entry_verdict_exec(entry: &RawValue, cmd: &str) -> (r: EntryVerdict)
    ensures
        r == entry_verdict(*entry, cmd@),
{
    match entry {
        RawValue::Table(fields) => match table_get(fields, "commands") {
            Option::Some(v) => if commands_value_matches_exec(v, cmd) {
                EntryVerdict::Matches
            } else {
                EntryVerdict::Skips
            },
            Option::None => EntryVerdict::MissingCommands,
        },
        _ => EntryVerdict::NotTable,
    }
}

/// The result of scanning the image entries in declaration order.
pub enum ScanModel {
    /// `index` is the first entry whose `commands` matches.
    Found { index: int },
    /// `index` is the first malformed entry reached before any match;
    /// `missing_commands` tells which way it is malformed.
    Malformed { index: int, missing_commands: bool },
    /// Every entry is well-formed and none matches.
    NoneMatched,
}

/// Scans `entries` from position `i` for the first match or malformed entry.
pub open spec fn scan_entries_from(entries: Seq<RawValue>, cmd: Seq<char>, i: int) -> ScanModel
    decreases entries.len() - i,
{
    if i < 0 || i >= entries.len() {
        ScanModel::NoneMatched
    } else {
        match entry_verdict(entries[i], cmd) {
            EntryVerdict::Matches => ScanModel::Found { index: i },
            EntryVerdict::Skips => scan_entries_from(entries, cmd, i + 1),
            EntryVerdict::MissingCommands => ScanModel::Malformed {
                index: i,
                missing_commands: true,
            },
            EntryVerdict::NotTable => ScanModel::Malformed { index: i, missing_commands: false },
        }
    }
}

/// Executable counterpart of [`ScanModel`].
pub enum ScanResult {
    Found { index: usize },
    Malformed { index: usize, missing_commands: bool },
    NoneMatched,
}

impl View for ScanResult {
    type V = ScanModel;

    open spec fn view(&self) -> ScanModel {
        match self {
            ScanResult::Found { index } => ScanModel::Found { index: *index as int },
            ScanResult::Malformed { index, missing_commands } => ScanModel::Malformed {
                index: *index as int,
                missing_commands: *missing_commands,
            },
            ScanResult::NoneMatched => ScanModel::NoneMatched,
        }
    }
}

fn scan_entries(entries: &Vec<RawValue>, cmd: &str) -> (r: ScanResult)
    ensures
        r@ == scan_entries_from(entries@, cmd@, 0),
        r@ matches ScanModel::Found { index } ==> 0 <= index < entries@.len(),
        r@ matches ScanModel::Malformed { index, .. } ==> 0 <= index < entries@.len(),
{
    let mut i: usize = 0;
    while i < entries.len()
        invariant
            i <= entries@.len(),
            scan_entries_from(entries@, cmd@, 0) == scan_entries_from(entries@, cmd@, i as int),
        decreases entries@.len() - i,
    {
        match entry_verdict_exec(&entries[i], cmd) {
            EntryVerdict::Matches => {
                return ScanResult::Found { index: i };
            },
            EntryVerdict::Skips => {
                i += 1;
            },
            EntryVerdict::MissingCommands => {
                return ScanResult::Malformed { index: i, missing_commands: true };
            },
            EntryVerdict::NotTable => {
                return ScanResult::Malformed { index: i, missing_commands: false };
            },
        }
    }
    ScanResult::NoneMatched
}

/// `key` qualified with a list index, as in `env[2]`.
pub open spec fn indexed_field(key: Seq<char>, i: nat) -> Seq<char> {
    key + "["@ + dec_spec(i) + "]"@
}

/// A field of a list element, as in `mounts[2].src`.
pub open spec fn sub_field(key: Seq<char>, i: nat, field: Seq<char>) -> Seq<char> {
    key + "["@ + dec_spec(i) + "]."@ + field
}

fn indexed_field_exec(key: &str, i: usize) -> (r: String)
    ensures
        r@ == indexed_field(key@, i as nat),
{
    let mut r = key.to_owned();
    r.append("[");
    r.append(dec_string(i as u64).as_str());
    r.append("]");
    r
}

fn sub_field_exec(key: &str, i: usize, field: &str) -> (r: String)
    ensures
        r@ == sub_field(key@, i as nat, field@),
{
    let mut r = key.to_owned();
    r.append("[");
    r.append(dec_string(i as u64).as_str());
    r.append("].");
    r.append(field);
    r
}

/// The text under a required key: missing or non-text values are
/// configuration errors.
pub open spec fn req_text_spec(fields: Seq<(String, RawValue)>, key: Seq<char>) -> Result<
    Seq<char>,
    ErrorModel,
> {
    match table_get_spec(fields, key) {
        Option::Some(RawValue::Text(s)) => Result::Ok(s@),
        Option::Some(_) => Result::Err(ErrorModel::InvalidValue { field: key }),
        Option::None => Result::Err(ErrorModel::MissingField { field: key }),
    }
}

/// The text under an optional key: absent is fine, non-text is an error.
pub open spec fn opt_text_spec(fields: Seq<(String, RawValue)>, key: Seq<char>) -> Result<
    Option<Seq<char>>,
    ErrorModel,
> {
    match table_get_spec(fields, key) {
        Option::Some(RawValue::Text(s)) => Result::Ok(Option::Some(s@)),
        Option::Some(_) => Result::Err(ErrorModel::InvalidValue { field: key }),
        Option::None => Result::Ok(Option::None),
    }
}

fn req_text(fields: &Vec<(String, RawValue)>, key: &str) -> (r: Result<String, Error>)
    ensures
        match r {
            Result::Ok(s) => req_text_spec(fields@, key@) == Result::Ok::<Seq<char>, ErrorModel>(
                s@,
            ),
            Result::Err(e) => req_text_spec(fields@, key@) == Result::Err::<Seq<char>, ErrorModel>(
                e@,
            ),
        },
{
    match table_get(fields, key) {
        Option::Some(v) => match v {
            RawValue::Text(s) => Result::Ok(s.clone()),
            _ => Result::Err(Error::InvalidValue { field: key.to_owned() }),
        },
        Option::None => Result::Err(Error::MissingField { field: key.to_owned() }),
    }
}

fn opt_text(fields: &Vec<(String, RawValue)>, key: &str) -> (r: Result<Option<String>, Error>)
    ensures
        match r {
            Result::Ok(s) => opt_text_spec(fields@, key@) == Result::Ok::<
                Option<Seq<char>>,
                ErrorModel,
            >(
                match s {
                    Option::Some(t) => Option::Some(t@),
                    Option::None => Option::None,
                },
            ),
            Result::Err(e) => opt_text_spec(fields@, key@) == Result::Err::<
                Option<Seq<char>>,
                ErrorModel,
            >(e@),
        },
{
    match table_get(fields, key) {
        Option::Some(v) => match v {
            RawValue::Text(s) => Result::Ok(Option::Some(s.clone())),
            _ => Result::Err(Error::InvalidValue { field: key.to_owned() }),
        },
        Option::None => Result::Ok(Option::None),
    }
}

/// The elements of a list of texts from position `i` on; a non-text element
/// is an error named by its index.
pub open spec fn text_items_spec(items: Seq<RawValue>, key: Seq<char>, i: int) -> Result<
    Seq<Seq<char>>,
    ErrorModel,
>
    decreases items.len() - i,
{
    if i < 0 || i >= items.len() {
        Result::Ok(Seq::empty())
    } else {
        match items[i] {
            RawValue::Text(s) => match text_items_spec(items, key, i + 1) {
                Result::Ok(rest) => Result::Ok(seq![s@] + rest),
                Result::Err(e) => Result::Err(e),
            },
            _ => Result::Err(
                ErrorModel::InvalidValue { field: indexed_field(key, i as nat) },
            ),
        }
    }
}

/// A list field read as texts: an absent key, or one that does not hold a
/// list, contributes nothing.
pub open spec fn text_list_spec(fields: Seq<(String, RawValue)>, key: Seq<char>) -> Result<
    Seq<Seq<char>>,
    ErrorModel,
> {
    match table_get_spec(fields, key) {
        Option::Some(RawValue::List(items)) => text_items_spec(items@, key, 0),
        _ => Result::Ok(Seq::empty()),
    }
}

fn collect_texts(items: &Vec<RawValue>, key: &str, i: usize) -> (r: Result<Vec<String>, Error>)
    requires
        i <= items@.len(),
    ensures
        (match r {
            Result::Ok(v) => text_items_spec(items@, key@, i as int) == Result::Ok::<
                Seq<Seq<char>>,
                ErrorModel,
            >(v.deep_view()),
            Result::Err(e) => text_items_spec(items@, key@, i as int) == Result::Err::<
                Seq<Seq<char>>,
                ErrorModel,
            >(e@),
        }),
    decreases items@.len() - i,
{
    if i == items.len() {
        let v: Vec<String> = Vec::new();
        proof {
            assert(v.deep_view() =~= Seq::<Seq<char>>::empty());
        }
        Result::Ok(v)
    } else {
        match &items[i] {
            RawValue::Text(s) => match collect_texts(items, key, i + 1) {
                Result::Ok(rest) => {
                    let ghost old_rest = rest.deep_view();
                    let mut out = rest;
                    out.insert(0, s.clone());
                    proof {
                        assert(out.deep_view() =~= seq![s@] + old_rest);
                    }
                    Result::Ok(out)
                },
                Result::Err(e) => Result::Err(e),
            },
            _ => Result::Err(Error::InvalidValue { field: indexed_field_exec(key, i) }),
        }
    }
}

fn text_list(fields: &Vec<(String, RawValue)>, key: &str) -> (r: Result<Vec<String>, Error>)
    ensures
        (match r {
            Result::Ok(v) => text_list_spec(fields@, key@) == Result::Ok::<
                Seq<Seq<char>>,
                ErrorModel,
            >(v.deep_view()),
            Result::Err(e) => text_list_spec(fields@, key@) == Result::Err::<
                Seq<Seq<char>>,
                ErrorModel,
            >(e@),
        }),
{
    match table_get(fields, key) {
        Option::Some(v) => match v {
            RawValue::List(items) => collect_texts(items, key, 0),
            _ => {
                let out: Vec<String> = Vec::new();
                proof {
                    assert(out.deep_view() =~= Seq::<Seq<char>>::empty());
                }
                Result::Ok(out)
            },
        },
        Option::None => {
            let out: Vec<String> = Vec::new();
            proof {
                assert(out.deep_view() =~= Seq::<Seq<char>>::empty());
            }
            Result::Ok(out)
        },
    }
}

/// A required text field of a list element, errors named like `var[0].name`.
pub open spec fn item_req_text_spec(
    fields: Seq<(String, RawValue)>,
    key: Seq<char>,
    i: int,
    name: Seq<char>,
) -> Result<Seq<char>, ErrorModel> {
    match table_get_spec(fields, name) {
        Option::Some(RawValue::Text(s)) => Result::Ok(s@),
        Option::Some(_) => Result::Err(
            ErrorModel::InvalidValue { field: sub_field(key, i as nat, name) },
        ),
        Option::None => Result::Err(
            ErrorModel::MissingField { field: sub_field(key, i as nat, name) },
        ),
    }
}

/// An optional text field of a list element.
pub open spec fn item_opt_text_spec(
    fields: Seq<(String, RawValue)>,
    key: Seq<char>,
    i: int,
    name: Seq<char>,
) -> Result<Option<Seq<char>>, ErrorModel> {
    match table_get_spec(fields, name) {
        Option::Some(RawValue::Text(s)) => Result::Ok(Option::Some(s@)),
        Option::Some(_) => Result::Err(
            ErrorModel::InvalidValue { field: sub_field(key, i as nat, name) },
        ),
        Option::None => Result::Ok(Option::None),
    }
}

fn item_req_text(fields: &Vec<(String, RawValue)>, key: &str, i: usize, name: &str) -> (r: Result<
    String,
    Error,
>)
    ensures
        (match r {
            Result::Ok(s) => item_req_text_spec(fields@, key@, i as int, name@) == Result::Ok::<
                Seq<char>,
                ErrorModel,
            >(s@),
            Result::Err(e) => item_req_text_spec(fields@, key@, i as int, name@) == Result::Err::<
                Seq<char>,
                ErrorModel,
            >(e@),
        }),
{
    match table_get(fields, name) {
        Option::Some(v) => match v {
            RawValue::Text(s) => Result::Ok(s.clone()),
            _ => Result::Err(Error::InvalidValue { field: sub_field_exec(key, i, name) }),
        },
        Option::None => Result::Err(Error::MissingField { field: sub_field_exec(key, i, name) }),
    }
}

fn item_opt_text(fields: &Vec<(String, RawValue)>, key: &str, i: usize, name: &str) -> (r: Result<
    Option<String>,
    Error,
>)
    ensures
        (match r {
            Result::Ok(s) => item_opt_text_spec(fields@, key@, i as int, name@) == Result::Ok::<
                Option<Seq<char>>,
                ErrorModel,
            >(
                match s {
                    Option::Some(t) => Option::Some(t@),
                    Option::None => Option::None,
                },
            ),
            Result::Err(e) => item_opt_text_spec(fields@, key@, i as int, name@) == Result::Err::<
                Option<Seq<char>>,
                ErrorModel,
            >(e@),
        }),
{
    match table_get(fields, name) {
        Option::Some(v) => match v {
            RawValue::Text(s) => Result::Ok(Option::Some(s.clone())),
            _ => Result::Err(Error::InvalidValue { field: sub_field_exec(key, i, name) }),
        },
        Option::None => Result::Ok(Option::None),
    }
}

/// The `var` declarations from position `i` on. Elements that are not tables
/// are passed over; a table must name both the variable and its command.
pub open spec fn var_items_spec(items: Seq<RawValue>, i: int) -> Result<Seq<VarModel>, ErrorModel>
    decreases items.len() - i,
{
    if i < 0 || i >= items.len() {
        Result::Ok(Seq::empty())
    } else {
        match items[i] {
            RawValue::Table(f) => match item_req_text_spec(f@, "var"@, i, "name"@) {
                Result::Ok(name) => match item_req_text_spec(f@, "var"@, i, "command"@) {
                    Result::Ok(command) => match var_items_spec(items, i + 1) {
                        Result::Ok(rest) => Result::Ok(
                            seq![VarModel { name, command }] + rest,
                        ),
                        Result::Err(e) => Result::Err(e),
                    },
                    Result::Err(e) => Result::Err(e),
                },
                Result::Err(e) => Result::Err(e),
            },
            _ => var_items_spec(items, i + 1),
        }
    }
}

/// The entry's `var` declarations; an absent key or one that does not hold a
/// list contributes nothing.
pub open spec fn vars_spec(fields: Seq<(String, RawValue)>) -> Result<Seq<VarModel>, ErrorModel> {
    match table_get_spec(fields, "var"@) {
        Option::Some(RawValue::List(items)) => var_items_spec(items@, 0),
        _ => Result::Ok(Seq::empty()),
    }
}

fn collect_vars(items: &Vec<RawValue>, i: usize) -> (r: Result<Vec<VarDecl>, Error>)
    requires
        i <= items@.len(),
    ensures
        (match r {
            Result::Ok(v) => var_items_spec(items@, i as int) == Result::Ok::<
                Seq<VarModel>,
                ErrorModel,
            >(v@.map_values(|d: VarDecl| d@)),
            Result::Err(e) => var_items_spec(items@, i as int) == Result::Err::<
                Seq<VarModel>,
                ErrorModel,
            >(e@),
        }),
    decreases items@.len() - i,
{
    if i == items.len() {
        let v: Vec<VarDecl> = Vec::new();
        proof {
            assert(v@.map_values(|d: VarDecl| d@) =~= Seq::<VarModel>::empty());
        }
        Result::Ok(v)
    } else {
        match &items[i] {
            RawValue::Table(f) => {
                let name = match item_req_text(f, "var", i, "name") {
                    Result::Ok(n) => n,
                    Result::Err(e) => {
                        return Result::Err(e);
                    },
                };
                let command = match item_req_text(f, "var", i, "command") {
                    Result::Ok(c) => c,
                    Result::Err(e) => {
                        return Result::Err(e);
                    },
                };
                match collect_vars(items, i + 1) {
                    Result::Ok(rest) => {
                        let ghost old_rest = rest@.map_values(|d: VarDecl| d@);
                        let mut out = rest;
                        let decl = VarDecl { name, command };
                        out.insert(0, decl);
                        proof {
                            assert(out@.map_values(|d: VarDecl| d@) =~= seq![decl@] + old_rest);
                        }
                        Result::Ok(out)
                    },
                    Result::Err(e) => Result::Err(e),
                }
            },
            _ => collect_vars(items, i + 1),
        }
    }
}

/// The mount declarations from position `i` on. Elements that are not tables
/// are passed over; a table must carry `type`, `src` and `dst`.
pub open spec fn mount_items_spec(items: Seq<RawValue>, i: int) -> Result<
    Seq<MountModel>,
    ErrorModel,
>
    decreases items.len() - i,
{
    if i < 0 || i >= items.len() {
        Result::Ok(Seq::empty())
    } else {
        match items[i] {
            RawValue::Table(f) => match item_req_text_spec(f@, "mounts"@, i, "type"@) {
                Result::Ok(mount_type) => match item_req_text_spec(f@, "mounts"@, i, "src"@) {
                    Result::Ok(src) => match item_req_text_spec(f@, "mounts"@, i, "dst"@) {
                        Result::Ok(dst) => match item_opt_text_spec(f@, "mounts"@, i, "options"@) {
                            Result::Ok(options) => match mount_items_spec(items, i + 1) {
                                Result::Ok(rest) => Result::Ok(
                                    seq![MountModel { mount_type, src, dst, options }] + rest,
                                ),
                                Result::Err(e) => Result::Err(e),
                            },
                            Result::Err(e) => Result::Err(e),
                        },
                        Result::Err(e) => Result::Err(e),
                    },
                    Result::Err(e) => Result::Err(e),
                },
                Result::Err(e) => Result::Err(e),
            },
            _ => mount_items_spec(items, i + 1),
        }
    }
}

/// The entry's mount declarations; an absent key or one that does not hold a
/// list contributes nothing.
pub open spec fn mounts_spec(fields: Seq<(String, RawValue)>) -> Result<
    Seq<MountModel>,
    ErrorModel,
> {
    match table_get_spec(fields, "mounts"@) {
        Option::Some(RawValue::List(items)) => mount_items_spec(items@, 0),
        _ => Result::Ok(Seq::empty()),
    }
}

fn collect_mounts(items: &Vec<RawValue>, i: usize) -> (r: Result<Vec<MountDecl>, Error>)
    requires
        i <= items@.len(),
    ensures
        (match r {
            Result::Ok(v) => mount_items_spec(items@, i as int) == Result::Ok::<
                Seq<MountModel>,
                ErrorModel,
            >(v@.map_values(|d: MountDecl| d@)),
            Result::Err(e) => mount_items_spec(items@, i as int) == Result::Err::<
                Seq<MountModel>,
                ErrorModel,
            >(e@),
        }),
    decreases items@.len() - i,
{
    if i == items.len() {
        let v: Vec<MountDecl> = Vec::new();
        proof {
            assert(v@.map_values(|d: MountDecl| d@) =~= Seq::<MountModel>::empty());
        }
        Result::Ok(v)
    } else {
        match &items[i] {
            RawValue::Table(f) => {
                let mount_type = match item_req_text(f, "mounts", i, "type") {
                    Result::Ok(t) => t,
                    Result::Err(e) => {
                        return Result::Err(e);
                    },
                };
                let src = match item_req_text(f, "mounts", i, "src") {
                    Result::Ok(s) => s,
                    Result::Err(e) => {
                        return Result::Err(e);
                    },
                };
                let dst = match item_req_text(f, "mounts", i, "dst") {
                    Result::Ok(d) => d,
                    Result::Err(e) => {
                        return Result::Err(e);
                    },
                };
                let options = match item_opt_text(f, "mounts", i, "options") {
                    Result::Ok(o) => o,
                    Result::Err(e) => {
                        return Result::Err(e);
                    },
                };
                match collect_mounts(items, i + 1) {
                    Result::Ok(rest) => {
                        let ghost old_rest = rest@.map_values(|d: MountDecl| d@);
                        let mut out = rest;
                        let decl = MountDecl { mount_type, src, dst, options };
                        out.insert(0, decl);
                        proof {
                            assert(out@.map_values(|d: MountDecl| d@) =~= seq![decl@] + old_rest);
                        }
                        Result::Ok(out)
                    },
                    Result::Err(e) => Result::Err(e),
                }
            },
            _ => collect_mounts(items, i + 1),
        }
    }
}

/// The version gate of a document: when it declares `contain_min_version`,
/// the running version must not be lower. Checked before any command
/// matching.
pub open spec fn version_gate_spec(fields: Seq<(String, RawValue)>, current: Seq<char>) -> Option<
    ErrorModel,
> {
    match table_get_spec(fields, "contain_min_version"@) {
        Option::None => Option::None,
        Option::Some(RawValue::Text(req)) => match semver_lt(current, req@) {
            Option::None => Option::Some(ErrorModel::VersionInvalid { required: req@ }),
            Option::Some(true) => Option::Some(
                ErrorModel::VersionTooLow { required: req@, current },
            ),
            Option::Some(false) => Option::None,
        },
        Option::Some(_) => Option::Some(
            ErrorModel::InvalidValue { field: "contain_min_version"@ },
        ),
    }
}

fn version_gate(fields: &Vec<(String, RawValue)>, current: &str) -> (r: Option<Error>)
    ensures
        (match r {
            Option::Some(e) => version_gate_spec(fields@, current@) == Option::Some(e@),
            Option::None => version_gate_spec(fields@, current@) is None,
        }),
{
    match table_get(fields, "contain_min_version") {
        Option::None => Option::None,
        Option::Some(v) => match v {
            RawValue::Text(req) => match version_less_than(current, req.as_str()) {
                Option::None => Option::Some(Error::VersionInvalid { required: req.clone() }),
                Option::Some(true) => Option::Some(
                    Error::VersionTooLow { required: req.clone(), current: current.to_owned() },
                ),
                Option::Some(false) => Option::None,
            },
            _ => Option::Some(Error::InvalidValue { field: "contain_min_version".to_owned() }),
        },
    }
}

/// Extraction and validation of a matched entry's fields, in the order the
/// document is read: image, name, dockerfile, default shell, variables,
/// environment, build arguments, mounts, ports, flags. The first offending
/// field decides the error.
pub open spec fn extract_pending_spec(fields: Seq<(String, RawValue)>) -> Result<
    PendingModel,
    ErrorModel,
> {
    match req_text_spec(fields, "image"@) {
        Result::Err(e) => Result::Err(e),
        Result::Ok(image) => match opt_text_spec(fields, "name"@) {
            Result::Err(e) => Result::Err(e),
            Result::Ok(name) => match req_text_spec(fields, "dockerfile"@) {
                Result::Err(e) => Result::Err(e),
                Result::Ok(dockerfile) => match opt_text_spec(fields, "default_shell"@) {
                    Result::Err(e) => Result::Err(e),
                    Result::Ok(default_shell) => match vars_spec(fields) {
                        Result::Err(e) => Result::Err(e),
                        Result::Ok(vars) => match text_list_spec(fields, "env"@) {
                            Result::Err(e) => Result::Err(e),
                            Result::Ok(env) => match text_list_spec(fields, "build_args"@) {
                                Result::Err(e) => Result::Err(e),
                                Result::Ok(build_args) => match mounts_spec(fields) {
                                    Result::Err(e) => Result::Err(e),
                                    Result::Ok(mounts) => match text_list_spec(fields, "ports"@) {
                                        Result::Err(e) => Result::Err(e),
                                        Result::Ok(ports) => match text_list_spec(
                                            fields,
                                            "flags"@,
                                        ) {
                                            Result::Err(e) => Result::Err(e),
                                            Result::Ok(flags) => Result::Ok(
                                                PendingModel {
                                                    image,
                                                    name,
                                                    dockerfile,
                                                    default_shell,
                                                    vars,
                                                    env,
                                                    build_args,
                                                    mounts,
                                                    ports,
                                                    flags,
                                                },
                                            ),
                                        },
                                    },
                                },
                            },
                        },
                    },
                },
            },
        },
    }
}

/// Validates a matched entry and carries its fields out, still unexpanded.
pub fn extract_pending(fields: &Vec<(String, RawValue)>) -> (r: Result<PendingConfig, Error>)
    ensures
        (match r {
            Result::Ok(p) => extract_pending_spec(fields@) == Result::Ok::<
                PendingModel,
                ErrorModel,
            >(p@),
            Result::Err(e) => extract_pending_spec(fields@) == Result::Err::<
                PendingModel,
                ErrorModel,
            >(e@),
        }),
{
    let image = match req_text(fields, "image") {
        Result::Ok(v) => v,
        Result::Err(e) => {
            return Result::Err(e);
        },
    };
    let name = match opt_text(fields, "name") {
        Result::Ok(v) => v,
        Result::Err(e) => {
            return Result::Err(e);
        },
    };
    let dockerfile = match req_text(fields, "dockerfile") {
        Result::Ok(v) => v,
        Result::Err(e) => {
            return Result::Err(e);
        },
    };
    let default_shell = match opt_text(fields, "default_shell") {
        Result::Ok(v) => v,
        Result::Err(e) => {
            return Result::Err(e);
        },
    };
    let vars = match table_get(fields, "var") {
        Option::Some(v) => match v {
            RawValue::List(items) => match collect_vars(items, 0) {
                Result::Ok(v) => v,
                Result::Err(e) => {
                    return Result::Err(e);
                },
            },
            _ => {
                let none: Vec<VarDecl> = Vec::new();
                proof {
                    assert(none@.map_values(|d: VarDecl| d@) =~= Seq::<VarModel>::empty());
                }
                none
            },
        },
        Option::None => {
            let none: Vec<VarDecl> = Vec::new();
            proof {
                assert(none@.map_values(|d: VarDecl| d@) =~= Seq::<VarModel>::empty());
            }
            none
        },
    };
    let env = match text_list(fields, "env") {
        Result::Ok(v) => v,
        Result::Err(e) => {
            return Result::Err(e);
        },
    };
    let build_args = match text_list(fields, "build_args") {
        Result::Ok(v) => v,
        Result::Err(e) => {
            return Result::Err(e);
        },
    };
    let mounts = match table_get(fields, "mounts") {
        Option::Some(v) => match v {
            RawValue::List(items) => match collect_mounts(items, 0) {
                Result::Ok(v) => v,
                Result::Err(e) => {
                    return Result::Err(e);
                },
            },
            _ => {
                let none: Vec<MountDecl> = Vec::new();
                proof {
                    assert(none@.map_values(|d: MountDecl| d@) =~= Seq::<MountModel>::empty());
                }
                none
            },
        },
        Option::None => {
            let none: Vec<MountDecl> = Vec::new();
            proof {
                assert(none@.map_values(|d: MountDecl| d@) =~= Seq::<MountModel>::empty());
            }
            none
        },
    };
    let ports = match text_list(fields, "ports") {
        Result::Ok(v) => v,
        Result::Err(e) => {
            return Result::Err(e);
        },
    };
    let flags = match text_list(fields, "flags") {
        Result::Ok(v) => v,
        Result::Err(e) => {
            return Result::Err(e);
        },
    };
    Result::Ok(
        PendingConfig {
            image,
            name,
            dockerfile,
            default_shell,
            vars,
            env,
            build_args,
            mounts,
            ports,
            flags,
        },
    )
}

/// What evaluating one document against the requested command yields.
#[derive(Debug)]
pub enum DocOutcome {
    /// An entry matched; its fields are validated and carried out.
    Matched(PendingConfig),
    /// The document is acceptable but no entry matches: the walk continues.
    NoMatch,
    /// The document is unacceptable: the walk stops with this error.
    Halt(Error),
}

/// Spec-level shape of a [`DocOutcome`].
pub enum DocOutcomeModel {
    Matched(PendingModel),
    NoMatch,
    Halt(ErrorModel),
}

impl View for DocOutcome {
    type V = DocOutcomeModel;

    open spec fn view(&self) -> DocOutcomeModel {
        match self {
            DocOutcome::Matched(p) => DocOutcomeModel::Matched(p@),
            DocOutcome::NoMatch => DocOutcomeModel::NoMatch,
            DocOutcome::Halt(e) => DocOutcomeModel::Halt(e@),
        }
    }
}

/// Evaluation of one parsed document: the version gate first, then the scan
/// of the image entries in declaration order, then extraction of the first
/// match. A document whose `images` key is absent or not a list matches
/// nothing.
pub open spec fn evaluate_spec(
    fields: Seq<(String, RawValue)>,
    cmd: Seq<char>,
    current: Seq<char>,
) -> DocOutcomeModel {
    match version_gate_spec(fields, current) {
        Option::Some(e) => DocOutcomeModel::Halt(e),
        Option::None => match table_get_spec(fields, "images"@) {
            Option::Some(RawValue::List(entries)) => match scan_entries_from(entries@, cmd, 0) {
                ScanModel::Found { index } => match extract_pending_spec(
                    entries@[index]->Table_0@,
                ) {
                    Result::Ok(p) => DocOutcomeModel::Matched(p),
                    Result::Err(e) => DocOutcomeModel::Halt(e),
                },
                ScanModel::Malformed { index, missing_commands } => DocOutcomeModel::Halt(
                    if missing_commands {
                        ErrorModel::MissingField {
                            field: sub_field("images"@, index as nat, "commands"@),
                        }
                    } else {
                        ErrorModel::InvalidValue { field: indexed_field("images"@, index as nat) }
                    },
                ),
                ScanModel::NoneMatched => DocOutcomeModel::NoMatch,
            },
            _ => DocOutcomeModel::NoMatch,
        },
    }
}

/// A scan that found `index` passed over everything before it and matched at
/// `index`.
pub proof fn lemma_scan_found(entries: Seq<RawValue>, cmd: Seq<char>, i: int, index: int)
    requires
        0 <= i <= entries.len(),
        scan_entries_from(entries, cmd, i) == (ScanModel::Found { index }),
    ensures
        i <= index < entries.len(),
        entry_verdict(entries[index], cmd) == EntryVerdict::Matches,
        forall|k: int| i <= k < index ==> entry_verdict(entries[k], cmd) == EntryVerdict::Skips,
    decreases entries.len() - i,
{
    if i < entries.len() {
        if entry_verdict(entries[i], cmd) == EntryVerdict::Skips {
            lemma_scan_found(entries, cmd, i + 1, index);
        }
    }
}

/// Evaluates one parsed document against the requested command under the
/// running version.
pub fn evaluate_document(
    fields: &Vec<(String, RawValue)>,
    command: &str,
    current_version: &str,
) -> (r: DocOutcome)
    ensures
        r@ == evaluate_spec(fields@, command@, current_version@),
{
    if let Option::Some(e) = version_gate(fields, current_version) {
        return DocOutcome::Halt(e);
    }
    match table_get(fields, "images") {
        Option::Some(v) => match v {
            RawValue::List(entries) => match scan_entries(entries, command) {
                ScanResult::Found { index } => {
                    proof {
                        lemma_scan_found(entries@, command@, 0, index as int);
                    }
                    match &entries[index] {
                        RawValue::Table(entry_fields) => match extract_pending(entry_fields) {
                            Result::Ok(p) => DocOutcome::Matched(p),
                            Result::Err(e) => DocOutcome::Halt(e),
                        },
                        _ => {
                            proof {
                                assert(false);
                            }
                            DocOutcome::NoMatch
                        },
                    }
                },
                ScanResult::Malformed { index, missing_commands } => DocOutcome::Halt(
                    if missing_commands {
                        Error::MissingField { field: sub_field_exec("images", index, "commands") }
                    } else {
                        Error::InvalidValue { field: indexed_field_exec("images", index) }
                    },
                ),
                ScanResult::NoneMatched => DocOutcome::NoMatch,
            },
            _ => DocOutcome::NoMatch,
        },
        Option::None => DocOutcome::NoMatch,
    }
}

/// One directory of the upward walk, deepest first: its path and what its
/// configuration document contributed.
#[derive(Debug)]
pub struct DirDoc {
    pub path: String,
    pub doc: DocState,
}

/// What the whole walk yields: the nearest match with the index of the
/// directory that holds it, or the error that stopped the walk (including
/// "no configuration found anywhere").
#[derive(Debug)]
pub enum LocateOutcome {
    Matched { root_index: usize, pending: PendingConfig },
    Halted { error: Error },
}

/// Spec-level shape of a [`LocateOutcome`].
pub enum LocateModel {
    Matched { root_index: int, pending: PendingModel },
    Halted { error: ErrorModel },
}

impl View for LocateOutcome {
    type V = LocateModel;

    open spec fn view(&self) -> LocateModel {
        match self {
            LocateOutcome::Matched { root_index, pending } => LocateModel::Matched {
                root_index: *root_index as int,
                pending: pending@,
            },
            LocateOutcome::Halted { error } => LocateModel::Halted { error: error@ },
        }
    }
}

/// The walk from directory `i` on: a directory without a document is passed
/// over; a document that does not parse stops the walk; a parsed document is
/// evaluated, and only "no entry matches" continues to the parent.
pub open spec fn locate_from(
    dirs: Seq<DirDoc>,
    cmd: Seq<char>,
    current: Seq<char>,
    i: int,
) -> LocateModel
    decreases dirs.len() - i,
{
    if i < 0 || i >= dirs.len() {
        LocateModel::Halted { error: ErrorModel::NoConfigFound { command: cmd } }
    } else {
        match dirs[i].doc {
            DocState::Missing => locate_from(dirs, cmd, current, i + 1),
            DocState::Unparsable => LocateModel::Halted {
                error: ErrorModel::ConfigParse { path: dirs[i].path@ },
            },
            DocState::Parsed(fields) => match evaluate_spec(fields@, cmd, current) {
                DocOutcomeModel::Matched(p) => LocateModel::Matched { root_index: i, pending: p },
                DocOutcomeModel::NoMatch => locate_from(dirs, cmd, current, i + 1),
                DocOutcomeModel::Halt(e) => LocateModel::Halted { error: e },
            },
        }
    }
}

/// The whole walk, starting at the deepest directory.
pub open spec fn locate_spec(dirs: Seq<DirDoc>, cmd: Seq<char>, current: Seq<char>) -> LocateModel {
    locate_from(dirs, cmd, current, 0)
}

/// Walks the ancestor directories, deepest first, and resolves the requested
/// command to the nearest matching entry.
pub fn locate(dirs: &Vec<DirDoc>, command: &str, current_version: &str) -> (r: LocateOutcome)
    ensures
        r@ == locate_spec(dirs@, command@, current_version@),
        r@ matches LocateModel::Matched { root_index, .. } ==> 0 <= root_index < dirs@.len(),
{
    let mut i: usize = 0;
    while i < dirs.len()
        invariant
            i <= dirs@.len(),
            locate_spec(dirs@, command@, current_version@) == locate_from(
                dirs@,
                command@,
                current_version@,
                i as int,
            ),
        decreases dirs@.len() - i,
    {
        match &dirs[i].doc {
            DocState::Missing => {
                i += 1;
            },
            DocState::Unparsable => {
                return LocateOutcome::Halted {
                    error: Error::ConfigParse { path: dirs[i].path.clone() },
                };
            },
            DocState::Parsed(fields) => {
                match evaluate_document(fields, command, current_version) {
                    DocOutcome::Matched(p) => {
                        return LocateOutcome::Matched { root_index: i, pending: p };
                    },
                    DocOutcome::NoMatch => {
                        i += 1;
                    },
                    DocOutcome::Halt(e) => {
                        return LocateOutcome::Halted { error: e };
                    },
                }
            },
        }
    }
    LocateOutcome::Halted { error: Error::NoConfigFound { command: command.to_owned() } }
}

/// The expanded command line of a `var` declaration, to be run by the caller
/// with its trimmed output handed back to [`record_var_output`].
pub fn var_command_line(v: &VarDecl, ctx: &EnvContext) -> (r: Result<String, Error>)
    ensures
        (match r {
            Result::Ok(s) => expand_env_of(v.command@, ctx.as_map()) == Option::Some(s@),
            Result::Err(e) => expand_env_of(v.command@, ctx.as_map()) is None && e@
                == (ErrorModel::ExpandFailed { field: v.name@ }),
        }),
{
    match expand_env(v.command.as_str(), ctx) {
        Option::Some(s) => Result::Ok(s),
        Option::None => Result::Err(Error::ExpandFailed { field: v.name.clone() }),
    }
}

/// Records what a `var` command produced: on success its trimmed output is
/// bound to the variable, visible to every later expansion; a failed command
/// aborts resolution.
pub fn record_var_output(ctx: &mut EnvContext, v: &VarDecl, succeeded: bool, output: &str) -> (r:
    Result<(), Error>)
    ensures
        succeeded ==> r is Ok && final(ctx).as_map() == old(ctx).as_map().insert(
            v.name@,
            trim_spec(output@),
        ),
        !succeeded ==> (r matches Result::Err(e) && e@ == (ErrorModel::CommandFailed {
            command: v.command@,
        })) && final(ctx).as_map() == old(ctx).as_map(),
{
    if succeeded {
        let value = trim(output);
        ctx.set(v.name.clone(), value);
        Result::Ok(())
    } else {
        Result::Err(Error::CommandFailed { command: v.command.clone() })
    }
}

/// The items from position `i` on, each expanded against `m`; a failing
/// expansion is an error named by its index.
pub open spec fn expand_items_spec(
    items: Seq<Seq<char>>,
    m: Map<Seq<char>, Seq<char>>,
    key: Seq<char>,
    i: int,
) -> Result<Seq<Seq<char>>, ErrorModel>
    decreases items.len() - i,
{
    if i < 0 || i >= items.len() {
        Result::Ok(Seq::empty())
    } else {
        match expand_env_of(items[i], m) {
            Option::Some(out) => match expand_items_spec(items, m, key, i + 1) {
                Result::Ok(rest) => Result::Ok(seq![out] + rest),
                Result::Err(e) => Result::Err(e),
            },
            Option::None => Result::Err(
                ErrorModel::ExpandFailed { field: indexed_field(key, i as nat) },
            ),
        }
    }
}

fn expand_items(items: &Vec<String>, ctx: &EnvContext, key: &str, i: usize) -> (r: Result<
    Vec<String>,
    Error,
>)
    requires
        i <= items@.len(),
    ensures
        (match r {
            Result::Ok(v) => expand_items_spec(items.deep_view(), ctx.as_map(), key@, i as int)
                == Result::Ok::<Seq<Seq<char>>, ErrorModel>(v.deep_view()),
            Result::Err(e) => expand_items_spec(items.deep_view(), ctx.as_map(), key@, i as int)
                == Result::Err::<Seq<Seq<char>>, ErrorModel>(e@),
        }),
    decreases items@.len() - i,
{
    if i == items.len() {
        let v: Vec<String> = Vec::new();
        proof {
            assert(v.deep_view() =~= Seq::<Seq<char>>::empty());
        }
        Result::Ok(v)
    } else {
        match expand_env(items[i].as_str(), ctx) {
            Option::Some(out) => match expand_items(items, ctx, key, i + 1) {
                Result::Ok(rest) => {
                    let ghost old_rest = rest.deep_view();
                    let mut v = rest;
                    let ghost out_view = out@;
                    v.insert(0, out);
                    proof {
                        assert(v.deep_view() =~= seq![out_view] + old_rest);
                    }
                    Result::Ok(v)
                },
                Result::Err(e) => Result::Err(e),
            },
            Option::None => Result::Err(
                Error::ExpandFailed { field: indexed_field_exec(key, i) },
            ),
        }
    }
}

/// The engine mount argument built from one declaration's expanded fields.
pub open spec fn mount_line_spec(
    mount_type: Seq<char>,
    src: Seq<char>,
    dst: Seq<char>,
    options: Option<Seq<char>>,
) -> Seq<char> {
    "type="@ + mount_type + ",src="@ + src + ",dst="@ + dst + (match options {
        Option::Some(o) => ","@ + o,
        Option::None => Seq::empty(),
    })
}

/// The mount declarations from position `i` on, `src`, `dst` and `options`
/// expanded, each formatted as one engine argument.
pub open spec fn expand_mounts_spec(
    mounts: Seq<MountModel>,
    m: Map<Seq<char>, Seq<char>>,
    i: int,
) -> Result<Seq<Seq<char>>, ErrorModel>
    decreases mounts.len() - i,
{
    if i < 0 || i >= mounts.len() {
        Result::Ok(Seq::empty())
    } else {
        match expand_env_of(mounts[i].src, m) {
            Option::None => Result::Err(
                ErrorModel::ExpandFailed { field: sub_field("mounts"@, i as nat, "src"@) },
            ),
            Option::Some(src) => match expand_env_of(mounts[i].dst, m) {
                Option::None => Result::Err(
                    ErrorModel::ExpandFailed { field: sub_field("mounts"@, i as nat, "dst"@) },
                ),
                Option::Some(dst) => match mounts[i].options {
                    Option::None => match expand_mounts_spec(mounts, m, i + 1) {
                        Result::Ok(rest) => Result::Ok(
                            seq![mount_line_spec(mounts[i].mount_type, src, dst, Option::None)]
                                + rest,
                        ),
                        Result::Err(e) => Result::Err(e),
                    },
                    Option::Some(o) => match expand_env_of(o, m) {
                        Option::None => Result::Err(
                            ErrorModel::ExpandFailed {
                                field: sub_field("mounts"@, i as nat, "options"@),
                            },
                        ),
                        Option::Some(oo) => match expand_mounts_spec(mounts, m, i + 1) {
                            Result::Ok(rest) => Result::Ok(
                                seq![
                                    mount_line_spec(
                                        mounts[i].mount_type,
                                        src,
                                        dst,
                                        Option::Some(oo),
                                    ),
                                ] + rest,
                            ),
                            Result::Err(e) => Result::Err(e),
                        },
                    },
                },
            },
        }
    }
}

fn mount_line(mount_type: &str, src: &str, dst: &str, options: Option<&String>) -> (r: String)
    ensures
        r@ == mount_line_spec(
            mount_type@,
            src@,
            dst@,
            match options {
                Option::Some(o) => Option::Some(o@),
                Option::None => Option::None,
            },
        ),
{
    let mut line = "type=".to_owned();
    line.append(mount_type);
    line.append(",src=");
    line.append(src);
    line.append(",dst=");
    line.append(dst);
    match options {
        Option::Some(o) => {
            line.append(",");
            line.append(o.as_str());
        },
        Option::None => {},
    }
    line
}

fn expand_mounts(mounts: &Vec<MountDecl>, ctx: &EnvContext, i: usize) -> (r: Result<
    Vec<String>,
    Error,
>)
    requires
        i <= mounts@.len(),
    ensures
        (match r {
            Result::Ok(v) => expand_mounts_spec(
                mounts@.map_values(|d: MountDecl| d@),
                ctx.as_map(),
                i as int,
            ) == Result::Ok::<Seq<Seq<char>>, ErrorModel>(v.deep_view()),
            Result::Err(e) => expand_mounts_spec(
                mounts@.map_values(|d: MountDecl| d@),
                ctx.as_map(),
                i as int,
            ) == Result::Err::<Seq<Seq<char>>, ErrorModel>(e@),
        }),
    decreases mounts@.len() - i,
{
    if i == mounts.len() {
        let v: Vec<String> = Vec::new();
        proof {
            assert(v.deep_view() =~= Seq::<Seq<char>>::empty());
        }
        Result::Ok(v)
    } else {
        let decl = &mounts[i];
        let src = match expand_env(decl.src.as_str(), ctx) {
            Option::Some(s) => s,
            Option::None => {
                return Result::Err(
                    Error::ExpandFailed { field: sub_field_exec("mounts", i, "src") },
                );
            },
        };
        let dst = match expand_env(decl.dst.as_str(), ctx) {
            Option::Some(d) => d,
            Option::None => {
                return Result::Err(
                    Error::ExpandFailed { field: sub_field_exec("mounts", i, "dst") },
                );
            },
        };
        let options = match &decl.options {
            Option::Some(o) => match expand_env(o.as_str(), ctx) {
                Option::Some(oo) => Option::Some(oo),
                Option::None => {
                    return Result::Err(
                        Error::ExpandFailed { field: sub_field_exec("mounts", i, "options") },
                    );
                },
            },
            Option::None => Option::None,
        };
        let line = mount_line(
            decl.mount_type.as_str(),
            src.as_str(),
            dst.as_str(),
            options.as_ref(),
        );
        match expand_mounts(mounts, ctx, i + 1) {
            Result::Ok(rest) => {
                let ghost old_rest = rest.deep_view();
                let ghost line_view = line@;
                let mut v = rest;
                v.insert(0, line);
                proof {
                    assert(v.deep_view() =~= seq![line_view] + old_rest);
                }
                Result::Ok(v)
            },
            Result::Err(e) => Result::Err(e),
        }
    }
}

/// Materialization of a matched entry: every environment, build-argument and
/// mount field expanded against the bindings, the workdir taken from the
/// override or its default. The result's model is a function of the entry,
/// the bindings, the override and the root path.
pub open spec fn materialize_spec(
    p: PendingModel,
    m: Map<Seq<char>, Seq<char>>,
    workdir_override: Option<Seq<char>>,
    root: Seq<char>,
) -> Result<ConfigModel, ErrorModel> {
    match expand_items_spec(p.env, m, "env"@, 0) {
        Result::Err(e) => Result::Err(e),
        Result::Ok(env) => match expand_items_spec(p.build_args, m, "build_args"@, 0) {
            Result::Err(e) => Result::Err(e),
            Result::Ok(build_args) => match expand_mounts_spec(p.mounts, m, 0) {
                Result::Err(e) => Result::Err(e),
                Result::Ok(extra_mounts) => Result::Ok(
                    ConfigModel {
                        image: p.image,
                        name: p.name,
                        dockerfile: p.dockerfile,
                        root_path: root,
                        workdir_path: match workdir_override {
                            Option::Some(w) => w,
                            Option::None => "/workdir"@,
                        },
                        flags: p.flags,
                        env_variables: env,
                        build_args,
                        extra_mounts,
                        ports: p.ports,
                        default_shell: p.default_shell,
                    },
                ),
            },
        },
    }
}

/// Builds the final configuration from a matched entry once its variable
/// commands have run into `ctx`.
pub fn materialize(
    pending: &PendingConfig,
    ctx: &EnvContext,
    workdir_override: Option<String>,
    root_path: String,
) -> (r: Result<Configuration, Error>)
    ensures
        (match r {
            Result::Ok(c) => materialize_spec(
                pending@,
                ctx.as_map(),
                match workdir_override {
                    Option::Some(w) => Option::Some(w@),
                    Option::None => Option::None,
                },
                root_path@,
            ) == Result::Ok::<ConfigModel, ErrorModel>(c@),
            Result::Err(e) => materialize_spec(
                pending@,
                ctx.as_map(),
                match workdir_override {
                    Option::Some(w) => Option::Some(w@),
                    Option::None => Option::None,
                },
                root_path@,
            ) == Result::Err::<ConfigModel, ErrorModel>(e@),
        }),
{
    let env_variables = match expand_items(&pending.env, ctx, "env", 0) {
        Result::Ok(v) => v,
        Result::Err(e) => {
            return Result::Err(e);
        },
    };
    let build_args = match expand_items(&pending.build_args, ctx, "build_args", 0) {
        Result::Ok(v) => v,
        Result::Err(e) => {
            return Result::Err(e);
        },
    };
    let extra_mounts = match expand_mounts(&pending.mounts, ctx, 0) {
        Result::Ok(v) => v,
        Result::Err(e) => {
            return Result::Err(e);
        },
    };
    let workdir_path = match workdir_override {
        Option::Some(w) => w,
        Option::None => "/workdir".to_owned(),
    };
    Result::Ok(
        Configuration {
            image: pending.image.clone(),
            name: pending.name.clone(),
            dockerfile: pending.dockerfile.clone(),
            root_path,
            workdir_path,
            flags: pending.flags.clone(),
            env_variables,
            build_args,
            extra_mounts,
            ports: pending.ports.clone(),
            default_shell: pending.default_shell.clone(),
        },
    )
}

} // verus!
