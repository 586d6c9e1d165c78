use vstd::prelude::*;

verus! {

/// A hook that receives ownership of each value evicted from a
/// [`DataFrame`](crate::data_frame::DataFrame) when the window slides
/// past it. Implementors may release resources, log, or otherwise
/// dispose of the value; the default implementation discards it.
pub trait DroppedValueConsumer<T> {
    fn consume(&self, _value: T) {
    }
}

/// The no-op consumer: evicted values are simply dropped.
pub struct DefaultConsumer;

impl<T> DroppedValueConsumer<T> for DefaultConsumer {
    fn consume(&self, _value: T) {
    }
}

impl DefaultConsumer {
    pub fn new() -> (r: Self)
        ensures
            r == (DefaultConsumer {}),
    {
        Self {}
    }
}

} // verus!
