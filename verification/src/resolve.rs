//! Finding the home directory of the current user.

use crate::error::HomeDirError;
use vstd::prelude::*;

verus! {

/// Asks the system for the home directory of the current user, by way of
/// `home::home_dir`, and hands its answer on as the bytes of the path.
///
/// The answer depends on the environment of the process and on the user
/// database, so nothing is claimed of it.
#[verifier::external_body]
pub(crate) fn system_home_dir() -> (found: Option<Vec<u8>>) {
    home::home_dir().map(|dir| dir.into_os_string().into_encoded_bytes())
}

/// Accepts the system's answer as the home directory, or says why it cannot
/// serve as one: there is none, or it is the empty path, against which
/// every join would silently give a relative path.
pub fn validate_home_dir(found: Option<Vec<u8>>) -> (home_dir: Result<Vec<u8>, HomeDirError>)
    ensures
        found is None <==> home_dir matches Err(HomeDirError::NotFounded),
        (found matches Some(dir) && dir@.len() == 0) <==> home_dir matches Err(HomeDirError::Empty),
        (found matches Some(dir) && dir@.len() > 0) <==> home_dir is Ok,
        home_dir matches Ok(dir) ==> found == Some(dir),
{
    match found {
        None => Err(HomeDirError::NotFounded),
        Some(dir) => {
            if dir.len() == 0 {
                Err(HomeDirError::Empty)
            } else {
                Ok(dir)
            }
        },
    }
}

/// Returns the home directory of the current user, as the system gives it.
///
/// Fails with `NotFounded` where the system gives none and with `Empty`
/// where it gives the empty path; see [`validate_home_dir`], which decides.
pub fn home_dir() -> (home_dir: Result<Vec<u8>, HomeDirError>)
    ensures
        home_dir matches Ok(dir) ==> dir@.len() > 0,
{
    validate_home_dir(system_home_dir())
}

} // verus!
