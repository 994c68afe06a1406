//! Folding of leading flag tokens into the global options: the tokens before
//! the first non-flag are consumed as toggles or `-eKEY=VALUE` environment
//! assignments, the first non-flag token is the command, and everything after
//! it is passed through untouched.

use vstd::prelude::*;
use vstd::string::*;
use crate::errors::{Error, ErrorModel};
use crate::model::{GlobalOptions, OptionsModel};
use crate::text::str_eq;

verus! {

/// What one leading flag token means.
pub enum FlagKind {
    Persist,
    Keep,
    Interactive,
    DryRun,
    Root,
    SkipPorts,
    SkipName,
    Env(Seq<char>),
    Unknown,
}

/// Classifies a token that begins with `-`. Any such token whose second
/// character is `e` carries an environment assignment in the rest of the
/// token.
pub open spec fn flag_kind(t: Seq<char>) -> FlagKind {
    if t == "-p"@ {
        FlagKind::Persist
    } else if t == "-k"@ {
        FlagKind::Keep
    } else if t == "-i"@ {
        FlagKind::Interactive
    } else if t == "--dry"@ {
        FlagKind::DryRun
    } else if t == "--root"@ {
        FlagKind::Root
    } else if t == "--skip-ports"@ {
        FlagKind::SkipPorts
    } else if t == "--skip-name"@ {
        FlagKind::SkipName
    } else if t.len() >= 2 && t[1] == 'e' {
        FlagKind::Env(t.subrange(2, t.len() as int))
    } else {
        FlagKind::Unknown
    }
}

/// The options after one recognized flag.
pub open spec fn apply_flag(o: OptionsModel, k: FlagKind) -> OptionsModel {
    match k {
        FlagKind::Persist => OptionsModel { persist_image: true, ..o },
        FlagKind::Keep => OptionsModel { keep_container: true, ..o },
        FlagKind::Interactive => OptionsModel { interactive: true, ..o },
        FlagKind::DryRun => OptionsModel { dry_run: true, ..o },
        FlagKind::Root => OptionsModel { run_as_root: true, ..o },
        FlagKind::SkipPorts => OptionsModel { skip_ports: true, ..o },
        FlagKind::SkipName => OptionsModel { skip_name: true, ..o },
        FlagKind::Env(v) => OptionsModel {
            cli_env_variables: o.cli_env_variables.push(v),
            ..o
        },
        FlagKind::Unknown => o,
    }
}

/// Consumes leading flag tokens from position `i` on; the position of the
/// first non-flag token comes back with the accumulated options. A token that
/// begins with `-` but is no known flag, or a token list that never reaches a
/// non-flag, is an error.
pub open spec fn parse_flags_from(tokens: Seq<Seq<char>>, o: OptionsModel, i: int) -> Result<
    (OptionsModel, int),
    ErrorModel,
>
    decreases tokens.len() - i,
{
    if i < 0 || i >= tokens.len() {
        Result::Err(ErrorModel::MissingCommand)
    } else if tokens[i].len() > 0 && tokens[i][0] == '-' {
        match flag_kind(tokens[i]) {
            FlagKind::Unknown => Result::Err(ErrorModel::UnsupportedFlag { flag: tokens[i] }),
            k => parse_flags_from(tokens, apply_flag(o, k), i + 1),
        }
    } else {
        Result::Ok((o, i))
    }
}

fn token_is(t: &str, lit: &str) -> (r: bool)
    ensures
        r == (t@ == lit@),
{
    str_eq(t, lit)
}

/// Splits the token list into global options, the command, and the command's
/// own arguments.
#[verifier::loop_isolation(false)]
pub fn parse_flags(tokens: &Vec<String>) -> (r: Result<(GlobalOptions, String, Vec<String>), Error>)
    ensures
        (match r {
            Result::Ok((opts, command, args)) => {
                &&& parse_flags_from(tokens.deep_view(), GlobalOptions::all_off_model(), 0)
                    matches Result::Ok((om, idx))
                &&& opts@ == om
                &&& command@ == tokens.deep_view()[idx]
                &&& args.deep_view() == tokens.deep_view().subrange(
                    idx + 1,
                    tokens.deep_view().len() as int,
                )
            },
            Result::Err(e) => parse_flags_from(tokens.deep_view(), GlobalOptions::all_off_model(), 0)
                == Result::Err::<(OptionsModel, int), ErrorModel>(e@),
        }),
{
    let mut opts = GlobalOptions::all_off();
    let mut i: usize = 0;
    while i < tokens.len()
        invariant
            i <= tokens@.len(),
            parse_flags_from(tokens.deep_view(), GlobalOptions::all_off_model(), 0)
                == parse_flags_from(tokens.deep_view(), opts@, i as int),
        decreases tokens@.len() - i,
    {
        let t = &tokens[i];
        proof {
            assert(tokens.deep_view()[i as int] == t@);
        }
        if t.as_str().unicode_len() > 0 && t.as_str().get_char(0) == '-' {
            let ghost pre = opts@;
            if token_is(t.as_str(), "-p") {
                opts.persist_image = true;
            } else if token_is(t.as_str(), "-k") {
                opts.keep_container = true;
            } else if token_is(t.as_str(), "-i") {
                opts.interactive = true;
            } else if token_is(t.as_str(), "--dry") {
                opts.dry_run = true;
            } else if token_is(t.as_str(), "--root") {
                opts.run_as_root = true;
            } else if token_is(t.as_str(), "--skip-ports") {
                opts.skip_ports = true;
            } else if token_is(t.as_str(), "--skip-name") {
                opts.skip_name = true;
            } else if t.as_str().unicode_len() >= 2 && t.as_str().get_char(1) == 'e' {
                let assignment = t.as_str().substring_char(2, t.as_str().unicode_len()).to_owned();
                proof {
                    assert(assignment@ =~= t@.subrange(2, t@.len() as int));
                }
                opts.cli_env_variables.push(assignment);
                proof {
                    assert(opts@.cli_env_variables =~= apply_flag(
                        pre,
                        flag_kind(t@),
                    ).cli_env_variables);
                }
            } else {
                return Result::Err(Error::UnsupportedFlag { flag: t.clone() });
            }
            proof {
                assert(!(flag_kind(t@) is Unknown));
                assert(opts@ == apply_flag(pre, flag_kind(t@)));
                assert(parse_flags_from(tokens.deep_view(), pre, i as int) == parse_flags_from(
                    tokens.deep_view(),
                    opts@,
                    i as int + 1,
                ));
            }
            i += 1;
        } else {
            let command = t.clone();
            let mut args: Vec<String> = Vec::new();
            let mut j: usize = i + 1;
            while j < tokens.len()
                invariant
                    i + 1 <= j <= tokens@.len(),
                    args.deep_view() =~= tokens.deep_view().subrange(i as int + 1, j as int),
                decreases tokens@.len() - j,
            {
                args.push(tokens[j].clone());
                proof {
                    assert(args.deep_view() =~= tokens.deep_view().subrange(
                        i as int + 1,
                        j as int + 1,
                    ));
                }
                j += 1;
            }
            return Result::Ok((opts, command, args));
        }
    }
    Result::Err(Error::MissingCommand)
}

} // verus!
