//! The diagnostic sink: the external collaborator that captures structured
//! detail at debug severity before it is discarded.
//!
//! The sink is injected so that callers can substitute a capturing
//! implementation; `VecSink` is such an implementation, which records every
//! emission in order.

use vstd::prelude::*;

verus! {

/// A process-wide logging facility, seen as the sequence of texts emitted to
/// it so far.
pub trait DiagnosticSink {
    /// The texts emitted to this sink so far, oldest first.
    spec fn emitted(&self) -> Seq<Seq<char>>;

    /// Emits one structured text at debug severity.
    fn emit(&mut self, text: String)
        ensures
            final(self).emitted() == old(self).emitted().push(text@),
    ;
}

/// A capturing sink: it records every emission in a vector, in order.
pub struct VecSink {
    entries: Vec<String>,
}

impl VecSink {
    /// A sink that has captured nothing yet.
    pub fn new() -> (r: VecSink)
        ensures
            r.emitted() == Seq::<Seq<char>>::empty(),
    {
        let r = VecSink { entries: Vec::new() };
        proof {
            assert(r.emitted() =~= Seq::<Seq<char>>::empty());
        }
        r
    }

    /// The texts captured so far, oldest first.
    pub fn entries(&self) -> (r: &Vec<String>)
        ensures
            r.deep_view() == self.emitted(),
    {
        &self.entries
    }
}

impl DiagnosticSink for VecSink {
    closed spec fn emitted(&self) -> Seq<Seq<char>> {
        self.entries.deep_view()
    }

    fn emit(&mut self, text: String)
        ensures
            final(self).emitted() == old(self).emitted().push(text@),
    {
        self.entries.push(text);
        proof {
            assert(self.emitted() =~= old(self).emitted().push(text@));
        }
    }
}

} // verus!
