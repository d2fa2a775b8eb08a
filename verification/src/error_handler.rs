//! The ordered, append-only log of diagnostics that gates the success of
//! a phase.

pub mod error_span;
pub mod errors_messages;
pub mod zast_errors;

use vstd::prelude::*;

use crate::error_handler::zast_errors::{ZastError, ZastErrorV};

verus! {

/// An append-only collection of diagnostics, kept in the order they were
/// recorded. A phase succeeds exactly when its collector stays empty.
#[derive(Debug)]
pub struct ZastErrorCollector {
    errors: Vec<ZastError>,
}

impl View for ZastErrorCollector {
    type V = Seq<ZastErrorV>;

    closed spec fn view(&self) -> Seq<ZastErrorV> {
        self.errors@.map_values(|e: ZastError| e@)
    }
}

impl ZastErrorCollector {
    /// An empty collector.
    pub fn new() -> (r: Self)
        ensures
            r@ == Seq::<ZastErrorV>::empty(),
    {
        ZastErrorCollector { errors: Vec::new() }
    }

    /// Appends a diagnostic; everything recorded earlier stays in place.
    pub fn add_error(&mut self, zast_error: ZastError)
        ensures
            final(self)@ == old(self)@.push(zast_error@),
    {
        let ghost pre = self.errors@;
        self.errors.push(zast_error);
        proof {
            assert(final(self)@ =~= old(self)@.push(self.errors@.last()@));
        }
    }

    /// Whether any diagnostic has been recorded.
    pub fn has_errors(&self) -> (r: bool)
        ensures
            r == (self@.len() > 0),
    {
        self.errors.len() > 0
    }

    /// How many diagnostics have been recorded.
    pub fn len(&self) -> (r: usize)
        ensures
            r == self@.len(),
    {
        self.errors.len()
    }

    /// A reference to the diagnostic at `i`, in recording order.
    pub fn get(&self, i: usize) -> (r: &ZastError)
        requires
            i < self@.len(),
        ensures
            r@ == self@[i as int],
    {
        &self.errors[i]
    }
}

impl ZastErrorCollector {
    /// Hands the recorded diagnostics out, leaving the collector empty:
    /// how a phase drains its log exactly once on the error path.
    pub fn take(&mut self) -> (r: ZastErrorCollector)
        ensures
            final(self)@ == Seq::<ZastErrorV>::empty(),
            r@ == old(self)@,
    {
        let mut taken = ZastErrorCollector::new();
        core::mem::swap(&mut taken, self);
        taken
    }
}

impl Default for ZastErrorCollector {
    /// An empty collector.
    fn default() -> (r: Self)
        ensures
            r@ == Seq::<ZastErrorV>::empty(),
    {
        ZastErrorCollector::new()
    }
}

} // verus!
