//! An explicitly owned error collector: operations that tolerate failure
//! push a message here, and the interface shows how many errors accumulated
//! and what they say. The collector is passed to whoever needs it rather
//! than living in hidden global state.

use vstd::prelude::*;

verus! {

/// The collected error messages, oldest first. Messages are only appended
/// until the pool is explicitly cleared.
#[derive(Debug)]
pub struct ErrorsPool {
    errors: Vec<String>,
}

impl ErrorsPool {
    pub closed spec fn spec_errors(&self) -> Seq<String> {
        self.errors@
    }

    pub fn new() -> (p: Self)
        ensures
            p.spec_errors() == Seq::<String>::empty(),
    {
        ErrorsPool { errors: Vec::new() }
    }

    /// Record one error.
    pub fn push_error(&mut self, error: String)
        ensures
            final(self).spec_errors() == old(self).spec_errors().push(error),
    {
        self.errors.push(error);
    }

    /// Every collected message, oldest first.
    pub fn iter_errors(&self) -> (r: &Vec<String>)
        ensures
            r@ == self.spec_errors(),
    {
        &self.errors
    }

    pub fn is_empty(&self) -> (r: bool)
        ensures
            r == (self.spec_errors().len() == 0),
    {
        self.errors.len() == 0
    }

    pub fn len(&self) -> (n: usize)
        ensures
            n == self.spec_errors().len(),
    {
        self.errors.len()
    }

    /// Forget every collected message.
    pub fn clear(&mut self)
        ensures
            final(self).spec_errors() == Seq::<String>::empty(),
    {
        self.errors = Vec::new();
    }
}

impl Default for ErrorsPool {
    fn default() -> (p: Self)
        ensures
            p.spec_errors() == Seq::<String>::empty(),
    {
        ErrorsPool::new()
    }
}

/// What the error window shows: whether it is open, and how many errors it
/// knew of when last brought up to date.
#[derive(Debug)]
pub struct ErrorsPoolState {
    pub is_window_open: bool,
    pub number_of_errors: usize,
}

impl Default for ErrorsPoolState {
    fn default() -> (s: Self)
        ensures
            !s.is_window_open,
            s.number_of_errors == 0,
    {
        ErrorsPoolState { is_window_open: false, number_of_errors: 0 }
    }
}

} // verus!
