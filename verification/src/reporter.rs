//! Diagnostic suppression: while a throw is in flight the default reporter of
//! non-local exits is silent, and the reporter it replaced waits in a slot.

use vstd::prelude::*;

verus! {

/// What is installed as the default reporter.
#[derive(Debug, PartialEq, Eq)]
pub enum Reporter<H> {
    /// The reporter that reports nothing.
    Silent,
    /// A reporter that does report.
    Live(H),
}

/// The default reporter together with the slot for the one it replaced.
#[derive(Debug, PartialEq, Eq)]
pub struct Diagnostics<H> {
    pub active: Reporter<H>,
    pub saved: Option<Reporter<H>>,
}

impl<H> Diagnostics<H> {
    /// The state after `suppress`: with an empty slot, what was active is
    /// saved and the silent reporter is active; with a full slot, nothing moves.
    pub open spec fn suppressed(self) -> Self {
        if self.saved is None {
            Diagnostics { active: Reporter::Silent, saved: Some(self.active) }
        } else {
            self
        }
    }

    /// The state after `restore`: with a full slot, what was saved is active
    /// and the slot is empty; with an empty slot, nothing moves.
    pub open spec fn restored(self) -> Self {
        match self.saved {
            Some(reporter) => Diagnostics { active: reporter, saved: None },
            None => self,
        }
    }

    /// `active` as the default reporter, nothing suppressed.
    pub fn new(active: Reporter<H>) -> (diagnostics: Self)
        ensures
            diagnostics == (Diagnostics { active, saved: None }),
    {
        Diagnostics { active, saved: None }
    }

    /// Whether a throw in flight has silenced the default reporter.
    pub fn is_suppressed(&self) -> (suppressed: bool)
        ensures
            suppressed == (self.saved is Some),
    {
        self.saved.is_some()
    }

    /// Silences the default reporter, unless a throw in flight already has.
    pub fn suppress(&mut self)
        ensures
            *final(self) == old(self).suppressed(),
    {
        if self.saved.is_none() {
            let mut reporter = Reporter::Silent;
            core::mem::swap(&mut self.active, &mut reporter);
            self.saved = Some(reporter);
        }
    }

    /// Puts the saved reporter back, if there is one.
    pub fn restore(&mut self)
        ensures
            *final(self) == old(self).restored(),
    {
        match self.saved.take() {
            Some(reporter) => {
                self.active = reporter;
            },
            None => {},
        }
    }
}

} // verus!
