//! The boolean array itself.
use vstd::prelude::*;

use crate::index::{bounds_checked_index, resolve_index};
use crate::value::{is_truthy, truthiness, Value};

verus! {

/// The two ways an operation on a bit array can fail.
#[derive(Debug, Clone, Copy, PartialEq, Eq, Structural)]
pub enum BitArrayError {
    /// A size below zero was asked for.
    InvalidArgument,
    /// A write named an index that designates no slot.
    IndexOutOfRange,
}

/// What a read of `index` yields on `slots`: the slot's value, or `None`
/// where the index designates no slot.
pub open spec fn read_at(slots: Seq<bool>, index: int) -> Option<bool> {
    match resolve_index(slots.len() as int, index) {
        Some(p) => Some(slots[p]),
        None => None,
    }
}

/// What a write of `value` at `index` makes of `slots`, or `None` where the
/// index designates no slot.
pub open spec fn write_at(slots: Seq<bool>, index: int, value: bool) -> Option<Seq<bool>> {
    match resolve_index(slots.len() as int, index) {
        Some(p) => Some(slots.update(p, value)),
        None => None,
    }
}

/// `n` slots, all `false`.
pub open spec fn all_false(n: nat) -> Seq<bool> {
    Seq::new(n, |i: int| false)
}

/// A fixed-length sequence of booleans. Its length never changes after
/// construction.
pub struct BitArrayStore {
    store: Vec<bool>,
}

impl View for BitArrayStore {
    type V = Seq<bool>;

    closed spec fn view(&self) -> Seq<bool> {
        self.store@
    }
}

impl BitArrayStore {
    /// Every slot can be named by a signed 64-bit index.
    pub open spec fn wf(&self) -> bool {
        self@.len() <= i64::MAX
    }

    /// A bit array of `size` slots, all `false`.
    pub fn new(size: usize) -> (r: Self)
        requires
            size <= i64::MAX,
        ensures
            r.wf(),
            r@ == all_false(size as nat),
    {
        let store: Vec<bool> = vec![false; size];
        assert(store@ =~= all_false(size as nat));
        BitArrayStore { store }
    }

    /// A bit array of `size` slots, all `false`; `InvalidArgument` when
    /// `size` is negative.
    pub fn from_size(size: i64) -> (r: Result<Self, BitArrayError>)
        requires
            size <= usize::MAX,
        ensures
            size < 0 <==> r == Err::<Self, BitArrayError>(BitArrayError::InvalidArgument),
            size >= 0 ==> (r matches Ok(a) && a.wf() && a@ == all_false(size as nat)),
    {
        if size < 0 {
            return Err(BitArrayError::InvalidArgument);
        }
        Ok(BitArrayStore::new(size as usize))
    }

    /// The number of slots.
    pub fn length(&self) -> (r: usize)
        requires
            self.wf(),
        ensures
            r == self@.len(),
    {
        self.store.len()
    }

    /// The value at `index` (negative counts from the end), or `None` when
    /// `index` designates no slot.
    pub fn get(&self, index: i64) -> (r: Option<bool>)
        requires
            self.wf(),
        ensures
            r == read_at(self@, index as int),
    {
        match bounds_checked_index(self.store.len(), index) {
            Some(p) => Some(self.store[p]),
            None => None,
        }
    }

    /// Stores `value` at `index` (negative counts from the end) and returns
    /// it; `IndexOutOfRange`, with nothing changed, when `index` designates
    /// no slot.
    pub fn set(&mut self, index: i64, value: bool) -> (r: Result<bool, BitArrayError>)
        requires
            old(self).wf(),
        ensures
            final(self).wf(),
            match write_at(old(self)@, index as int, value) {
                Some(s) => r == Ok::<bool, BitArrayError>(value) && final(self)@ == s,
                None => r == Err::<bool, BitArrayError>(BitArrayError::IndexOutOfRange)
                    && final(self)@ == old(self)@,
            },
    {
        match bounds_checked_index(self.store.len(), index) {
            Some(p) => {
                self.store.set(p, value);
                Ok(value)
            },
            None => Err(BitArrayError::IndexOutOfRange),
        }
    }

    /// Stores the truthiness of `value` at `index` and returns it;
    /// `IndexOutOfRange`, with nothing changed, when `index` designates no
    /// slot.
    pub fn set_value(&mut self, index: i64, value: &Value) -> (r: Result<bool, BitArrayError>)
        requires
            old(self).wf(),
        ensures
            final(self).wf(),
            match write_at(old(self)@, index as int, is_truthy(*value)) {
                Some(s) => r == Ok::<bool, BitArrayError>(is_truthy(*value)) && final(self)@ == s,
                None => r == Err::<bool, BitArrayError>(BitArrayError::IndexOutOfRange)
                    && final(self)@ == old(self)@,
            },
    {
        let b = truthiness(value);
        self.set(index, b)
    }
}

} // verus!
