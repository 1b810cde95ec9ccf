//! The emission policy: which periodic sample boundaries become track points.
//!
//! The first periodic boundary of a stream is always emitted. After it, boundaries are
//! suppressed until a cadence text that is not empty has been seen anywhere in the
//! stream; from then on every periodic boundary is emitted.

use vstd::prelude::*;

verus! {

/// The three flags that gate emission.
#[derive(Clone, Copy, Debug, PartialEq, Eq, Structural)]
pub struct EmissionPolicy {
    /// The writer has been opened: some periodic boundary has been met.
    pub writer_opened: bool,
    /// Some periodic boundary has been emitted.
    pub dumped: bool,
    /// A cadence text that is not empty has been observed.
    pub cadence_seen: bool,
}

/// What the policy asks for at one periodic sample boundary.
#[derive(Clone, Copy, Debug, PartialEq, Eq, Structural)]
pub struct Decision {
    /// The writer has to be opened first: this is the first periodic boundary.
    pub open_writer: bool,
    /// The accumulated sample is to be emitted.
    pub emit: bool,
}

impl EmissionPolicy {
    /// The policy at the start of a stream.
    pub open spec fn initial() -> EmissionPolicy {
        EmissionPolicy { writer_opened: false, dumped: false, cadence_seen: false }
    }

    /// Whether a periodic boundary met in this state is emitted.
    pub open spec fn emits(self) -> bool {
        self.cadence_seen || !self.dumped
    }

    /// The state after a character update that left the accumulator with
    /// (`has_cadence`) or without a cadence text.
    pub open spec fn after_characters(self, has_cadence: bool) -> EmissionPolicy {
        EmissionPolicy { cadence_seen: self.cadence_seen || has_cadence, ..self }
    }

    /// The state after a periodic boundary.
    pub open spec fn after_boundary(self) -> EmissionPolicy {
        EmissionPolicy {
            writer_opened: true,
            dumped: self.dumped || self.emits(),
            cadence_seen: self.cadence_seen,
        }
    }

    /// What a periodic boundary met in this state asks for.
    pub open spec fn decision(self) -> Decision {
        Decision { open_writer: !self.writer_opened, emit: self.emits() }
    }

    /// A policy for the start of a stream.
    pub fn new() -> (policy: EmissionPolicy)
        ensures
            policy == EmissionPolicy::initial(),
    {
        EmissionPolicy { writer_opened: false, dumped: false, cadence_seen: false }
    }

    /// Records a character update; `has_cadence` says whether the accumulator now
    /// holds a cadence text.
    pub fn on_characters(&mut self, has_cadence: bool)
        ensures
            *final(self) == old(self).after_characters(has_cadence),
    {
        if !self.cadence_seen && has_cadence {
            self.cadence_seen = true;
        }
    }

    /// Records a periodic sample boundary and says what to do at it.
    pub fn on_periodic_boundary(&mut self) -> (decision: Decision)
        ensures
            decision == old(self).decision(),
            *final(self) == old(self).after_boundary(),
    {
        let open_writer = !self.writer_opened;
        self.writer_opened = true;
        let emit = self.cadence_seen || !self.dumped;
        if emit {
            self.dumped = true;
        }
        Decision { open_writer, emit }
    }
}

} // verus!
