//! A wrapper that carries a stream from one asynchronous I/O convention to the
//! other, and the length accounting that the carrying needs.
use vstd::prelude::*;

verus! {

/// Wraps a stream of one convention so it can be used under the other. It adds
/// no state and no buffering of its own.
pub struct AsyncCompat<T>(pub T);

impl<T> AsyncCompat<T> {
    pub fn new(inner: T) -> (r: Self)
        ensures
            r.0 == inner,
    {
        AsyncCompat(inner)
    }

    pub fn into_inner(self) -> (r: T)
        ensures
            r == self.0,
    {
        self.0
    }
}

/// How much of a destination holding `filled` of its `capacity` bytes is
/// filled once a read into its unfilled part reports `n` bytes. A count that
/// does not fit in the unfilled part is refused (`None`) rather than taken.
pub fn filled_after_read(filled: usize, capacity: usize, n: usize) -> (r: Option<usize>)
    requires
        filled <= capacity,
    ensures
        r == (if n <= capacity - filled {
            Some((filled + n) as usize)
        } else {
            None::<usize>
        }),
        r matches Some(f) ==> filled <= f <= capacity,
{
    if n <= capacity - filled {
        Some(filled + n)
    } else {
        None
    }
}

} // verus!
