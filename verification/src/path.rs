//! The model of a path and the functions on its segments.
//!
//! A path is the sequence of its bytes. Its segments are the runs of bytes
//! between separators; a path that begins with a separator is absolute.

use vstd::prelude::*;
use vstd::slice::slice_subrange;
use vstd::slice::slice_to_vec;

verus! {

/// The byte that separates the segments of a path: `/`.
pub const SEPARATOR: u8 = 0x2f;

/// The byte that, alone in the first segment of a path, stands for the home
/// directory: `~`.
pub const TILDE: u8 = 0x7e;

/// The first segment of `path`: its bytes before the first separator, or all
/// of them where it holds none.
pub open spec fn first_segment(path: Seq<u8>) -> Seq<u8>
    decreases path.len(),
{
    if path.len() == 0 || path[0] == SEPARATOR {
        Seq::empty()
    } else {
        seq![path[0]] + first_segment(path.skip(1))
    }
}

/// Whether `path` begins with the tilde as a whole segment: it is the tilde
/// alone, or the tilde with a separator behind it.
pub open spec fn tilde_prefixed(path: Seq<u8>) -> bool {
    &&& path.len() >= 1
    &&& path[0] == TILDE
    &&& (path.len() == 1 || path[1] == SEPARATOR)
}

/// Whether `path` is absolute: it begins with a separator.
pub open spec fn absolute(path: Seq<u8>) -> bool {
    path.len() >= 1 && path[0] == SEPARATOR
}

/// `bytes` without the separators that it begins with.
pub open spec fn without_leading_separators(bytes: Seq<u8>) -> Seq<u8>
    decreases bytes.len(),
{
    if bytes.len() >= 1 && bytes[0] == SEPARATOR {
        without_leading_separators(bytes.skip(1))
    } else {
        bytes
    }
}

/// What is left of a tilde-prefixed `path` once the tilde and the separators
/// behind it are taken away. It is never absolute.
pub open spec fn remainder(path: Seq<u8>) -> Seq<u8>
    recommends
        tilde_prefixed(path),
{
    without_leading_separators(path.skip(1))
}

/// `rest` adjoined to `base`. An empty `rest` leaves `base` as it is and an
/// absolute `rest` takes its place; otherwise `rest` follows `base`, with one
/// separator between them unless `base` is empty or ends in one already.
pub open spec fn joined(base: Seq<u8>, rest: Seq<u8>) -> Seq<u8> {
    if rest.len() == 0 {
        base
    } else if absolute(rest) {
        rest
    } else if base.len() == 0 || base.last() == SEPARATOR {
        base + rest
    } else {
        base + seq![SEPARATOR] + rest
    }
}

/// `path` with a leading tilde segment replaced by `home_dir`; a path
/// without one is left as it is.
pub open spec fn expanded(path: Seq<u8>, home_dir: Seq<u8>) -> Seq<u8> {
    if tilde_prefixed(path) {
        joined(home_dir, remainder(path))
    } else {
        path
    }
}

/// Tells whether the first segment of `path` is exactly the tilde.
pub fn has_tilde_prefix(path: &[u8]) -> (found: bool)
    ensures
        found == tilde_prefixed(path@),
{
    if path.len() == 0 || path[0] != TILDE {
        false
    } else {
        path.len() == 1 || path[1] == SEPARATOR
    }
}

/// Strips the leading tilde segment, and the separators behind it, from
/// `path`. Returns `None` where `path` does not begin with that segment.
pub fn strip_tilde(path: &[u8]) -> (stripped: Option<&[u8]>)
    ensures
        stripped.is_some() == tilde_prefixed(path@),
        tilde_prefixed(path@) ==> stripped.unwrap()@ == remainder(path@),
{
    if !has_tilde_prefix(path) {
        return None;
    }
    let mut start: usize = 1;
    while start < path.len() && path[start] == SEPARATOR
        invariant
            1 <= start <= path.len(),
            without_leading_separators(path@.skip(start as int)) == remainder(path@),
        decreases path.len() - start,
    {
        assert(path@.skip(start as int).skip(1) == path@.skip(start + 1));
        start += 1;
    }
    let rest = slice_subrange(path, start, path.len());
    assert(rest@ == path@.skip(start as int));
    Some(rest)
}

/// Adjoins `rest` to `base`.
pub fn join(base: &[u8], rest: &[u8]) -> (path: Vec<u8>)
    ensures
        path@ == joined(base@, rest@),
{
    if rest.len() == 0 {
        slice_to_vec(base)
    } else if rest[0] == SEPARATOR {
        slice_to_vec(rest)
    } else {
        let mut path = slice_to_vec(base);
        if base.len() != 0 && base[base.len() - 1] != SEPARATOR {
            path.push(SEPARATOR);
        }
        let mut copied: usize = 0;
        while copied < rest.len()
            invariant
                copied <= rest.len(),
                path@ == if base@.len() == 0 || base@.last() == SEPARATOR {
                    base@ + rest@.take(copied as int)
                } else {
                    base@ + seq![SEPARATOR] + rest@.take(copied as int)
                },
            decreases rest.len() - copied,
        {
            path.push(rest[copied]);
            assert(rest@.take(copied + 1) == rest@.take(copied as int).push(rest@[copied as int]));
            copied += 1;
        }
        assert(rest@.take(copied as int) == rest@);
        path
    }
}

} // verus!
