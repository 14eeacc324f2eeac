//! Small conveniences on standard types.

use vstd::prelude::*;

verus! {

/// Transposes an optional pair into a pair of options.
pub trait TransposeValues<T, U>: Sized {
    /// The value as the optional pair that it is.
    spec fn as_pair(&self) -> Option<(T, U)>;

    /// Both halves where there is a pair, neither where there is none.
    fn transpose_values(self) -> (halves: (Option<T>, Option<U>))
        ensures
            match self.as_pair() {
                Some((t, u)) => halves == (Some(t), Some(u)),
                None => halves == (None::<T>, None::<U>),
            },
    ;
}

impl<T, U> TransposeValues<T, U> for Option<(T, U)> {
    open spec fn as_pair(&self) -> Option<(T, U)> {
        *self
    }

    fn transpose_values(self) -> (halves: (Option<T>, Option<U>)) {
        match self {
            Some((t, u)) => (Some(t), Some(u)),
            None => (None, None),
        }
    }
}

} // verus!
