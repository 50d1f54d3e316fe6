//! Resolution of a signed, possibly negative index against a length.
use vstd::prelude::*;

verus! {

/// The position that `index` designates in a sequence of `len` slots:
/// a non-negative index counts from the front, a negative one from the end.
/// `None` when no slot is designated.
pub open spec fn resolve_index(len: int, index: int) -> Option<int> {
    if index < 0 {
        if len + index >= 0 {
            Some(len + index)
        } else {
            None
        }
    } else if index < len {
        Some(index)
    } else {
        None
    }
}

/// Resolves `index` against `len`, as `resolve_index` describes.
pub fn bounds_checked_index(len: usize, index: i64) -> (r: Option<usize>)
    requires
        len <= i64::MAX,
    ensures
        r matches Some(p) ==> p < len && resolve_index(len as int, index as int) == Some(
            p as int,
        ),
        r is None ==> resolve_index(len as int, index as int) is None,
{
    if index < 0 {
        let adjusted_index: i64 = (len as i64) + index;
        if adjusted_index < 0 {
            return None;
        }
        return Some(adjusted_index as usize);
    }
    if index >= (len as i64) {
        return None;
    }
    Some(index as usize)
}

} // verus!
