//! Failure reporting as an ordered cause chain.
//!
//! A failed request carries its root cause plus the context frames that were
//! wrapped around it on the way out, never a single flattened string. The
//! chain renders as an ordered list of human-readable causes.

use vstd::prelude::*;

verus! {

/// Where a failure came from, so that a bridge failure is never conflated
/// with a failure reported by a command handler.
#[derive(Clone, Copy, PartialEq, Eq, Structural, Debug)]
pub enum FaultKind {
    /// The external daemon was unreachable when the client was created.
    Transport,
    /// An individual external operation failed.
    Call,
    /// The bridge itself failed: the worker is gone, or a responder was
    /// dropped without a value having been placed into it.
    Bridge,
}

/// An ordered cause chain: the root cause plus the context frames wrapped
/// around it, innermost first.
pub struct CauseChain {
    kind: FaultKind,
    /// `frames[0]` is the root cause; each later frame is the context in
    /// which the one before it arose.
    frames: Vec<String>,
}

impl CauseChain {
    /// The frames of the chain, root cause first.
    pub closed spec fn frames_spec(self) -> Seq<Seq<char>> {
        self.frames@.map(|i: int, s: String| s@)
    }

    pub closed spec fn kind_spec(self) -> FaultKind {
        self.kind
    }

    /// Every chain carries at least its root cause.
    #[verifier::type_invariant]
    pub closed spec fn wf(self) -> bool {
        self.frames.len() >= 1
    }

    /// The innermost (terminal) cause of the chain.
    pub open spec fn root_spec(self) -> Seq<char> {
        self.frames_spec()[0]
    }

    /// A fresh chain holding only its root cause.
    pub fn root(kind: FaultKind, msg: String) -> (r: CauseChain)
        ensures
            r.wf(),
            r.kind_spec() == kind,
            r.frames_spec() =~= seq![msg@],
    {
        let mut frames: Vec<String> = Vec::new();
        frames.push(msg);
        CauseChain { kind, frames }
    }

    /// Wraps one more context frame around the chain. The root cause and the
    /// kind are unchanged; the new frame becomes the outermost one.
    pub fn context(self, msg: String) -> (r: CauseChain)
        ensures
            r.wf(),
            r.kind_spec() == self.kind_spec(),
            r.frames_spec() =~= self.frames_spec().push(msg@),
    {
        let mut frames = self.frames;
        frames.push(msg);
        CauseChain { kind: self.kind, frames }
    }

    pub fn kind(&self) -> (k: FaultKind)
        ensures
            k == self.kind_spec(),
    {
        self.kind
    }

    /// The innermost cause: the condition the chain bottoms out in.
    pub fn root_cause(&self) -> (r: &String)
        ensures
            r@ == self.root_spec(),
    {
        proof {
            use_type_invariant(&*self);
        }
        &self.frames[0]
    }

    /// Renders the chain as an ordered list of causes, outermost context
    /// first, root cause last. The list is never empty.
    pub fn render(&self) -> (r: Vec<String>)
        ensures
            r@.len() == self.frames_spec().len(),
            r@.len() >= 1,
            forall|i: int|
                0 <= i < r@.len() ==> r@[i]@ == self.frames_spec()[r@.len() - 1 - i],
    {
        proof {
            use_type_invariant(&*self);
        }
        let ghost n = self.frames@.len() as int;
        let mut out: Vec<String> = Vec::new();
        let mut i: usize = self.frames.len();
        while i > 0
            invariant
                i <= n,
                n == self.frames@.len(),
                out@.len() == n - i,
                forall|j: int| 0 <= j < out@.len() ==> out@[j]@ == self.frames_spec()[n - 1 - j],
            decreases i,
        {
            i = i - 1;
            out.push(self.frames[i].clone());
        }
        out
    }
}

} // verus!
