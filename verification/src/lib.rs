//! Expansion of a leading tilde (`~`) in a path into a home directory.
//!
//! Paths are held as the bytes of their platform encoding, with `/` as the
//! separator of their segments. Every function comes with a contract over
//! the sequence of bytes that a path is, and the laws that relate the
//! functions are proved in [`laws`].

pub mod error;
pub mod expand;
pub mod ext;
pub mod laws;
pub mod path;
pub mod resolve;
mod sealed;

pub use crate::error::HomeDirError;
pub use crate::expand::expand_tilde;
pub use crate::expand::expand_tilde_from;
pub use crate::expand::expand_tilde_with;
pub use crate::ext::ExpandTilde;
pub use crate::resolve::home_dir;
pub use crate::resolve::validate_home_dir;
