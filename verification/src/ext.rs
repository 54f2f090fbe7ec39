//! The expansion as methods of a path.

use crate::error::HomeDirError;
use crate::path::expanded;
use crate::path::tilde_prefixed;
use crate::sealed::Sealed;
use std::borrow::Cow;
use vstd::prelude::*;

verus! {

/// Expanding the leading tilde of a path, as methods of the path itself.
///
/// The methods do what the free functions of the same names do. The trait
/// cannot be implemented outside this crate.
pub trait ExpandTilde: Sealed {
    /// The bytes of the path that `self` holds.
    spec fn bytes(&self) -> Seq<u8>;

    /// Expands the leading tilde of this path into `home_dir`; see
    /// [`expand_tilde_with`](crate::expand::expand_tilde_with).
    fn expand_tilde_with(&self, home_dir: &[u8]) -> (result: Cow<'_, [u8]>)
        ensures
            result@ == expanded(self.bytes(), home_dir@),
            result matches Cow::Borrowed(_) <==> !tilde_prefixed(self.bytes()),
    ;

    /// Expands the leading tilde of this path into the home directory of the
    /// current user; see [`expand_tilde`](crate::expand::expand_tilde).
    fn expand_tilde(&self) -> (result: Result<Cow<'_, [u8]>, HomeDirError>)
        ensures
            result matches Ok(out) ==> exists|home_dir: Seq<u8>|
                home_dir.len() > 0 && out@ == #[trigger] expanded(self.bytes(), home_dir),
            result matches Ok(out) ==> (out matches Cow::Borrowed(_) <==> !tilde_prefixed(
                self.bytes(),
            )),
    ;
}

impl ExpandTilde for [u8] {
    open spec fn bytes(&self) -> Seq<u8> {
        self@
    }

    fn expand_tilde_with(&self, home_dir: &[u8]) -> (result: Cow<'_, [u8]>) {
        crate::expand::expand_tilde_with(self, home_dir)
    }

    fn expand_tilde(&self) -> (result: Result<Cow<'_, [u8]>, HomeDirError>) {
        let result = crate::expand::expand_tilde(self);
        proof {
            if result is Ok {
                let out = result->Ok_0@;
                let home_dir = choose|home_dir: Seq<u8>|
                    home_dir.len() > 0 && out == #[trigger] expanded(self@, home_dir);
                assert(out == expanded(self.bytes(), home_dir));
            }
        }
        result
    }
}

} // verus!
