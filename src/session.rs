//! The protocol phase of a session and the ABI version the kernel announced.
use vstd::prelude::*;

verus! {

/// Shared state of a session: whether INIT has succeeded, whether DESTROY has
/// come, and the kernel's protocol version as INIT announced it.
#[derive(Clone, Copy, Debug, PartialEq, Eq, Structural)]
pub struct Session {
    pub initialized: bool,
    pub destroyed: bool,
    pub proto_major: u32,
    pub proto_minor: u32,
}

/// Going from `a` to `b`, no phase flag is cleared, and once INIT has
/// succeeded the protocol version stays as it was.
pub open spec fn monotone(a: Session, b: Session) -> bool {
    &&& a.initialized ==> b.initialized
    &&& a.destroyed ==> b.destroyed
    &&& a.initialized ==> b.proto_major == a.proto_major && b.proto_minor == a.proto_minor
}

impl Session {
    /// A session that has seen no request yet.
    pub fn new() -> (r: Session)
        ensures
            !r.initialized,
            !r.destroyed,
            r.proto_major == 0,
            r.proto_minor == 0,
    {
        Session { initialized: false, destroyed: false, proto_major: 0, proto_minor: 0 }
    }
}

/// Along any run of steps that each keep [`monotone`], every pair of states,
/// earlier to later, keeps it too: each phase flag is set at most once and is
/// never cleared, and the version fixed at INIT is never changed.
pub proof fn lemma_run_monotone(run: Seq<Session>, i: int, j: int)
    requires
        forall|k: int| 0 <= k < run.len() - 1 ==> #[trigger] monotone(run[k], run[k + 1]),
        0 <= i <= j < run.len(),
    ensures
        monotone(run[i], run[j]),
    decreases j - i,
{
    if i < j {
        lemma_run_monotone(run, i, j - 1);
        let k = j - 1;
        assert(monotone(run[k], run[k + 1]));
    }
}

} // verus!
