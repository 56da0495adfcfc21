//! The liveness monitor's gating: a recurring tick source that exists
//! exactly while a session is `Active`. The source is re-evaluated against
//! current manager state at every instant — it is not a one-shot timer
//! armed at connect time — so a retired session never sees a stray tick.

use vstd::prelude::*;

use crate::session::SessionState;

verus! {

/// Period of the recurring liveness tick, in milliseconds.
pub const TICK_PERIOD_MS: u64 = 250;

/// Enabling condition of the tick source: ticks exist exactly while `Active`.
pub open spec fn tick_gate(state: SessionState) -> bool {
    state is Active
}

/// Which instants of a trace of manager states carry a tick: the
/// conditional recurring source re-evaluates its enabling condition against
/// the state current at each instant.
pub open spec fn tick_trace(states: Seq<SessionState>) -> Seq<bool> {
    states.map_values(|s: SessionState| tick_gate(s))
}

/// Tick law: no tick is observed at any instant at which the enabling
/// condition does not hold. Once a session leaves `Active` — by disconnect
/// or by a detected liveness failure — the source yields no further tick
/// until a new session is established.
pub proof fn lemma_no_tick_while_not_active(states: Seq<SessionState>, j: int)
    requires
        0 <= j < states.len(),
        !(states[j] is Active),
    ensures
        !tick_trace(states)[j],
{
}

/// Strengthening of the tick law to whole suffixes: from the instant the
/// enabling condition has become false, as long as no new session takes
/// the manager back to `Active`, no tick whatever is observed.
pub proof fn lemma_no_tick_after_condition_false(states: Seq<SessionState>, j: int)
    requires
        0 <= j <= states.len(),
        forall|k: int| j <= k < states.len() ==> !(#[trigger] states[k] is Active),
    ensures
        forall|k: int| j <= k < states.len() ==> !(#[trigger] tick_trace(states)[k]),
{
    assert forall|k: int| j <= k < states.len() implies !(#[trigger] tick_trace(states)[k]) by {
        lemma_no_tick_while_not_active(states, k);
    }
}

/// One evaluation of the conditional recurring source: a tick is due only
/// while ticks are enabled and a full period has elapsed since the last
/// tick. The source itself cannot fail.
pub fn tick_due(gate_open: bool, elapsed_ms: u64) -> (r: bool)
    ensures
        r == (gate_open && elapsed_ms >= TICK_PERIOD_MS),
{
    gate_open && elapsed_ms >= TICK_PERIOD_MS
}

} // verus!
