//! Laws relating construction, reads and writes, stated over the model
//! that the operations' contracts use.
use vstd::prelude::*;

use crate::index::resolve_index;
use crate::store::{all_false, read_at, write_at};

verus! {

/// A freshly built array of `n` slots has length `n`.
pub proof fn lemma_new_length(n: nat)
    ensures
        all_false(n).len() == n,
{
}

/// Every slot of a freshly built array reads `false`.
pub proof fn lemma_new_reads_false(n: nat, i: int)
    requires
        0 <= i < n,
    ensures
        read_at(all_false(n), i) == Some(false),
{
}

/// After writing `true` at a position `i` in range, reading `i` gives
/// `true`, and every index other than `i` and its negative alias `i - n`
/// reads as before.
pub proof fn lemma_set_then_get(s: Seq<bool>, i: int, j: int)
    requires
        0 <= i < s.len(),
    ensures
        write_at(s, i, true) matches Some(t) && read_at(t, i) == Some(true) && (j != i && j
            != i - s.len() ==> read_at(t, j) == read_at(s, j)),
{
}

/// A negative index `-k` reads and writes the same slot as `n - k`.
pub proof fn lemma_negative_alias(s: Seq<bool>, k: int, v: bool)
    requires
        1 <= k <= s.len(),
    ensures
        read_at(s, -k) == read_at(s, s.len() - k),
        write_at(s, -k, v) == write_at(s, s.len() - k, v),
{
}

/// A read of an index that designates no slot yields nothing, and a write
/// there is refused.
pub proof fn lemma_out_of_range(s: Seq<bool>, i: int, v: bool)
    requires
        resolve_index(s.len() as int, i) is None,
    ensures
        read_at(s, i) is None,
        write_at(s, i, v) is None,
{
}

} // verus!
