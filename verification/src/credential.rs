//! How a stored Pixiv credential is put to use: when its saved access token
//! can be reused without a network call, which refresh token is saved after
//! an exchange, and which credentials a discover hop may use.
use vstd::prelude::*;
use crate::clone_util::opt_text;
use crate::text::{owned, parse_unsigned, parse_unsigned_max};

verus! {

/// The Pixiv user a saved access token can be reused for: where a token is
/// stored and the credential's user ID is a positive unsigned 64-bit
/// number (a placeholder such as `env_default` is not).
pub open spec fn fast_path_user(has_access_token: bool, pixiv_user_id: Seq<char>) -> Option<u64> {
    if has_access_token {
        match parse_unsigned(pixiv_user_id, u64::MAX as int) {
            Some(id) => if id > 0 {
                Some(id as u64)
            } else {
                None
            },
            None => None,
        }
    } else {
        None
    }
}

/// The user a stored access token is reused for, or `None` where the
/// credential must exchange its refresh token instead.
pub fn fast_path_user_id(access_token: &Option<String>, pixiv_user_id: &str) -> (r: Option<u64>)
    ensures
        r == fast_path_user(access_token is Some, pixiv_user_id@),
{
    if access_token.is_none() {
        return None;
    }
    proof {
        crate::text::lemma_parse_unsigned_bound(pixiv_user_id@, u64::MAX as int);
    }
    match parse_unsigned_max(pixiv_user_id, u64::MAX) {
        Some(id) => if id > 0 {
            Some(id)
        } else {
            None
        },
        None => None,
    }
}

/// The refresh token saved after an exchange: the one Pixiv returned, else
/// `fallback`.
pub fn token_to_save(returned: &Option<String>, fallback: &str) -> (r: String)
    ensures
        r@ == match opt_text(*returned) {
            Some(t) => t,
            None => fallback@,
        },
{
    match returned {
        Some(t) => t.clone(),
        None => owned(fallback),
    }
}

/// Which credentials a discover hop draws from.
#[derive(Debug)]
pub enum CredentialChoice {
    /// The first active one among these IDs.
    AmongIds(Vec<i32>),
    /// Any active one, picked at random.
    AnyActive,
}

/// The credentials a discover hop draws from: the IDs the job names,
/// where it names any; else any active credential.
pub fn credential_choice(credential_ids: &Option<Vec<i32>>) -> (r: CredentialChoice)
    ensures
        match credential_ids {
            Some(ids) => if ids@.len() > 0 {
                r matches CredentialChoice::AmongIds(v) && v@ == ids@
            } else {
                r is AnyActive
            },
            None => r is AnyActive,
        },
{
    match credential_ids {
        Some(ids) => if ids.len() > 0 {
            CredentialChoice::AmongIds(ids.clone())
        } else {
            CredentialChoice::AnyActive
        },
        None => CredentialChoice::AnyActive,
    }
}

} // verus!
