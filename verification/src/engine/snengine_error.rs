//! The engine's error value: a failure description carried as text, e.g.
//! for a draw call aimed at an out-of-bounds terminal cell.

use vstd::prelude::*;

verus! {

#[derive(Debug)]
pub struct SnengineError {
    message: String,
}

impl View for SnengineError {
    type V = Seq<char>;

    /// An error is its message.
    closed spec fn view(&self) -> Seq<char> {
        self.message@
    }
}

impl SnengineError {
    pub fn new(message: &str) -> (r: Self)
        ensures
            r@ == message@,
    {
        SnengineError { message: message.to_owned() }
    }

    /// The human-readable description of the failure.
    pub fn text(&self) -> (r: String)
        ensures
            r@ == self@,
    {
        self.message.clone()
    }
}

impl PartialEq for SnengineError {
    fn eq(&self, other: &Self) -> (r: bool) {
        self.message == other.message
    }
}

impl vstd::std_specs::cmp::PartialEqSpecImpl for SnengineError {
    open spec fn obeys_eq_spec() -> bool {
        true
    }

    /// Two errors are equal when they carry the same message.
    open spec fn eq_spec(&self, other: &Self) -> bool {
        self@ == other@
    }
}

} // verus!
