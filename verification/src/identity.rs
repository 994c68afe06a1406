//! The host identity: numeric user and group id and the user name, injected
//! into image builds so that the image can create a matching in-container
//! user. The name falls back to a fixed default when the host user cannot be
//! resolved.

use vstd::prelude::*;
use crate::model::Identity;

verus! {

/// Relies on `users::get_current_uid`: the real user id of the calling
/// process. A property of the machine, so nothing is promised of the value.
#[verifier::external_body]
fn current_uid() -> u32 {
    users::get_current_uid()
}

/// Relies on `users::get_current_gid`: the real group id of the calling
/// process.
#[verifier::external_body]
fn current_gid() -> u32 {
    users::get_current_gid()
}

/// Relies on `users::get_user_by_uid`: the name of the user with this id when
/// the system knows one and the name is valid text.
#[verifier::external_body]
fn lookup_username(uid: u32) -> Option<String> {
    users::get_user_by_uid(uid).and_then(|u| u.name().to_str().map(|s| s.to_owned()))
}

/// The found user name, or the fixed fallback when the host user could not be
/// resolved.
pub fn username_or_default(found: Option<String>) -> (r: String)
    ensures
        match found {
            Option::Some(u) => r == u,
            Option::None => r@ == "dev"@,
        },
{
    match found {
        Option::Some(u) => u,
        Option::None => "dev".to_owned(),
    }
}

/// The identity of the invoking host user. The ids come from the system;
/// only the fallback rule for the name is a property of this crate.
pub fn host_identity() -> Identity {
    let uid = current_uid();
    let gid = current_gid();
    let username = username_or_default(lookup_username(uid));
    Identity { uid, gid, username }
}

} // verus!
