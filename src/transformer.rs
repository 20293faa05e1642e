//! The generic mapping from a container of ledger messages to block-versioned records.
use vstd::prelude::*;

verus! {

/// A message turned into the records it stands for at a given block.
pub trait FromStateAtBlock<S>: Sized {
    /// Whether `r` is exactly the records that `state_value` stands for at
    /// block `block_num`.
    spec fn is_at_block(block_num: i64, state_value: S, r: Self) -> bool;

    /// Returns an instance of Self in relation to the given block number,
    /// with the values described in the given state value.
    fn at_block(block_num: i64, state_value: &S) -> (r: Self)
        ensures
            Self::is_at_block(block_num, *state_value, r),
    ;
}

/// A ledger payload that is a flat list of one message type.
pub trait Container<S> {
    /// The messages held, in order.
    spec fn spec_values(&self) -> Seq<S>;

    /// Returns the values stored in this container.
    fn values(&self) -> (r: &[S])
        ensures
            r@ == self.spec_values(),
    ;

    /// Maps each message of this container, in order, to its records at `at_block_num`.
    fn to_models<D: FromStateAtBlock<S>>(&self, at_block_num: i64) -> (r: Vec<D>)
        ensures
            r@.len() == self.spec_values().len(),
            forall|i: int|
                0 <= i < r@.len() ==> D::is_at_block(at_block_num, self.spec_values()[i], #[trigger] r@[i]),
    {
        let values = self.values();
        let mut models: Vec<D> = Vec::new();
        let mut i: usize = 0;
        while i < values.len()
            invariant
                values@ == self.spec_values(),
                i <= values@.len(),
                models@.len() == i,
                forall|j: int|
                    0 <= j < i ==> D::is_at_block(at_block_num, values@[j], #[trigger] models@[j]),
            decreases values@.len() - i,
        {
            models.push(D::at_block(at_block_num, &values[i]));
            i = i + 1;
        }
        models
    }
}

} // verus!
