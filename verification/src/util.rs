//! A value marked as safe to share between threads.
use vstd::prelude::*;

verus! {

/// A value that its creator has promised to use only in thread-safe ways.
#[derive(Debug, Copy, Clone, Default, PartialEq, Eq, PartialOrd, Ord)]
pub struct ThreadSafe<T>(pub T);

impl<T> ThreadSafe<T> {
    /// Mark a value as thread safe.
    pub fn new(obj: T) -> (r: ThreadSafe<T>)
        ensures
            r.0 == obj,
    {
        ThreadSafe(obj)
    }

    /// The value inside.
    pub fn into_inner(self) -> (r: T)
        ensures
            r == self.0,
    {
        self.0
    }
}

impl<T> ThreadSafe<Option<T>> {
    /// An optional value marked as a whole becomes an optional marked value.
    pub fn into_option(self) -> (r: Option<ThreadSafe<T>>)
        ensures
            match self.0 {
                Some(a) => r == Some(ThreadSafe(a)),
                None => r is None,
            },
    {
        match self.0 {
            Some(a) => Some(ThreadSafe(a)),
            None => None,
        }
    }
}

} // verus!
