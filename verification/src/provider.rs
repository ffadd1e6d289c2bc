//! The path source consumed by the loader.
//!
//! A provider yields the elements of a fixed remaining sequence, one per
//! call, and reports exhaustion by `Ok(None)`. The loader treats exhaustion
//! and failure alike as fatal, so a provider backed by a fallible source
//! reports a failure by declaring itself exhausted.

use vstd::prelude::*;

use crate::errors::{RahmenError, RahmenResult};

verus! {

/// A source of elements for the slideshow, pulled one at a time.
pub trait Provider<D> {
    /// The elements this provider will still yield, in order.
    spec fn remaining(&self) -> Seq<D>;

    /// Yield the next element: the head of the remaining sequence, or
    /// `Ok(None)` once the sequence is exhausted.
    fn next_image(&mut self) -> (r: RahmenResult<Option<D>>)
        ensures
            old(self).remaining().len() == 0 ==> r == RahmenResult::<Option<D>>::Ok(None)
                && final(self).remaining() == old(self).remaining(),
            old(self).remaining().len() > 0 ==> r == RahmenResult::<Option<D>>::Ok(
                Some(old(self).remaining()[0]),
            ) && final(self).remaining() == old(self).remaining().drop_first(),
    ;
}

} // verus!
