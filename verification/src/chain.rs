//! The middleware chain and its continuation. A server assembles one ordered
//! middleware sequence; for each request a cursor starts at position zero,
//! and `proceed` hands control to the stage at the cursor together with a
//! cursor advanced by one. A stage that never calls `proceed` short-circuits
//! everything behind it; a cursor at the end of the sequence resolves as a
//! successful no-op, so the terminal stage may call `proceed` safely.

use vstd::prelude::*;

verus! {

use crate::http::HttpError;
use crate::http::Request;
use crate::http::Response;

/// One pipeline stage. Application code implements this; a stage may act
/// before calling `proceed`, act after it returns (wrapping), skip the call
/// to short-circuit the rest of the chain, or return an error to abort.
pub trait Middleware where Self: Sized {
    fn call(&self, req: &mut Request, res: &mut Response, next: &Next<'_, Self>) -> Result<
        (),
        HttpError,
    >;
}

/// The continuation handed to each stage: the remaining pipeline is the part
/// of the chain from `position` on.
pub struct Next<'a, M> {
    pub chain: &'a Vec<M>,
    pub position: usize,
}

impl<'a, M: Middleware> Next<'a, M> {
    /// A fresh cursor at the front of the chain, made once per request.
    pub fn begin(chain: &'a Vec<M>) -> (r: Next<'a, M>)
        ensures
            r.chain == chain,
            r.position == 0,
    {
        Next { chain, position: 0 }
    }

    /// Runs the remaining pipeline stages. At the end of the sequence this is
    /// a successful no-op that touches nothing; otherwise it invokes the stage
    /// at the cursor with a cursor advanced by one, and returns that stage's
    /// result. The cursor is a plain value: a stage that calls `proceed` a
    /// second time runs the remainder of the chain a second time, each call
    /// being an independent pass — the deliberate policy here for a
    /// double invocation.
    pub fn proceed(&self, req: &mut Request, res: &mut Response) -> (r: Result<(), HttpError>)
        ensures
            self.position >= self.chain@.len() ==> r is Ok && *final(req) == *old(req)
                && *final(res) == *old(res),
    {
        if self.position < self.chain.len() {
            let next = Next { chain: self.chain, position: self.position + 1 };
            self.chain[self.position].call(req, res, &next)
        } else {
            Ok(())
        }
    }
}

/// What one stage, when invoked, decides to do with the continuation: pass
/// control on by calling `proceed`, or stop without calling it (either
/// answering the request itself or aborting with an error).
pub ghost enum StageDecision {
    Pass,
    Stop,
}

/// Whether stage `k` of a pipeline run is invoked, given each stage's
/// decision: stage 0 runs when the pipeline is driven at all, and each later
/// stage runs exactly when the stage before it ran and passed control on.
pub open spec fn stage_invoked(decisions: Seq<StageDecision>, k: int) -> bool
    decreases k,
{
    if k <= 0 {
        true
    } else {
        stage_invoked(decisions, k - 1) && decisions[k - 1] is Pass
    }
}

/// Short-circuit law of the continuation: a stage that does not call
/// `proceed` keeps every stage behind it from running, however they would
/// have decided.
pub proof fn lemma_short_circuit(decisions: Seq<StageDecision>, j: int, k: int)
    requires
        0 <= j < k,
        !(decisions[j] is Pass),
    ensures
        !stage_invoked(decisions, k),
    decreases k,
{
    if k - 1 > j {
        lemma_short_circuit(decisions, j, k - 1);
    }
}

/// Progress law of the continuation: a stage runs as soon as every stage in
/// front of it passes control on; in particular, in the single pass the
/// cursor makes, it runs exactly once.
pub proof fn lemma_chain_runs(decisions: Seq<StageDecision>, k: int)
    requires
        0 <= k,
        forall|j: int| 0 <= j < k ==> (#[trigger] decisions[j]) is Pass,
    ensures
        stage_invoked(decisions, k),
    decreases k,
{
    if k > 0 {
        lemma_chain_runs(decisions, k - 1);
    }
}

} // verus!
