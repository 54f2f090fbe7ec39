//! What holds of the expansion on every path and every home directory.

use crate::path::absolute;
use crate::path::expanded;
use crate::path::first_segment;
use crate::path::joined;
use crate::path::remainder;
use crate::path::tilde_prefixed;
use crate::path::without_leading_separators;
use crate::path::SEPARATOR;
use crate::path::TILDE;
use vstd::prelude::*;

verus! {

/// The tilde is looked for segment by segment, not byte by byte: a path is
/// tilde-prefixed exactly when its first segment is the tilde and nothing
/// more. A first segment such as `~user` is none.
pub proof fn tilde_prefix_is_a_whole_segment(path: Seq<u8>)
    ensures
        tilde_prefixed(path) <==> first_segment(path) == seq![TILDE],
{
    reveal_with_fuel(first_segment, 2);
    let tilde = seq![TILDE];
    assert(tilde.len() == 1 && tilde[0] == TILDE);
    if path.len() >= 1 && path[0] != SEPARATOR {
        let behind = first_segment(path.skip(1));
        assert(first_segment(path).len() == 1 + behind.len());
        assert(first_segment(path)[0] == path[0]);
        if tilde_prefixed(path) {
            assert(first_segment(path) =~= tilde);
        }
    }
}

/// What is left behind the tilde of a path never begins with a separator.
pub proof fn remainder_is_relative(path: Seq<u8>)
    ensures
        !absolute(remainder(path)),
{
    leading_separators_are_gone(path.skip(1));
}

/// A path that does not begin with the tilde segment expands to itself,
/// whatever the home directory.
pub proof fn expansion_leaves_other_paths(path: Seq<u8>, home_dir: Seq<u8>)
    requires
        !tilde_prefixed(path),
    ensures
        expanded(path, home_dir) == path,
{
}

/// The tilde alone expands to the home directory, byte for byte.
pub proof fn expansion_of_the_tilde_alone(home_dir: Seq<u8>)
    ensures
        expanded(seq![TILDE], home_dir) == home_dir,
{
    let path = seq![TILDE];
    assert(path.skip(1).len() == 0);
}

/// Expanding the tilde joined with a path gives the home directory joined
/// with that path.
pub proof fn expansion_of_a_joined_tilde(home_dir: Seq<u8>, rest: Seq<u8>)
    requires
        rest.len() > 0,
    ensures
        expanded(joined(seq![TILDE], rest), home_dir) == joined(home_dir, rest),
{
    if !absolute(rest) {
        let path = seq![TILDE] + seq![SEPARATOR] + rest;
        assert(joined(seq![TILDE], rest) == path);
        assert(path.skip(1) == seq![SEPARATOR] + rest);
        assert(path.skip(1).skip(1) == rest);
        reveal_with_fuel(without_leading_separators, 2);
        assert(remainder(path) == rest);
    }
}

/// Expanding a path once more changes nothing, where the first expansion
/// left no tilde segment at its start.
pub proof fn expansion_is_idempotent(path: Seq<u8>, home_dir: Seq<u8>, again: Seq<u8>)
    requires
        !tilde_prefixed(expanded(path, home_dir)),
    ensures
        expanded(expanded(path, home_dir), again) == expanded(path, home_dir),
{
}

/// A home directory that is not empty and does not itself begin with the
/// tilde segment leaves no tilde segment at the start of what it expands,
/// so that expanding with it twice is expanding with it once.
pub proof fn expansion_into_a_plain_home_is_final(path: Seq<u8>, home_dir: Seq<u8>)
    requires
        home_dir.len() > 0,
        !tilde_prefixed(home_dir),
    ensures
        !tilde_prefixed(expanded(path, home_dir)),
        expanded(expanded(path, home_dir), home_dir) == expanded(path, home_dir),
{
    if tilde_prefixed(path) {
        remainder_is_relative(path);
    }
}

proof fn leading_separators_are_gone(bytes: Seq<u8>)
    ensures
        !absolute(without_leading_separators(bytes)),
    decreases bytes.len(),
{
    if bytes.len() >= 1 && bytes[0] == SEPARATOR {
        leading_separators_are_gone(bytes.skip(1));
    }
}

} // verus!
