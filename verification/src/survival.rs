//! The survival loop as a state machine. Each cycle the agent fetches the
//! wallet balance, decides by the re-post heuristic whether to draft and
//! publish another donation request, records the balance it saw, and sleeps.
//! Any failed step halts the loop. The machine only decides; performing an
//! action (querying, drafting, publishing, storing, sleeping) is the
//! driver's business, which then reports the outcome as the next event.

use vstd::prelude::*;
use crate::heuristic::spec_should_post;
use crate::heuristic::should_post;

verus! {

/// What the driver reports back after performing an action.
pub enum CycleEvent {
    /// The wallet answered with the current balance, in satoshis.
    BalanceReady(u64),
    /// The campaign text was drafted.
    PostReady(String),
    /// The note was handed to the relays.
    Published,
    /// The last-balance record was written.
    Stored,
    /// The sleep interval elapsed.
    Woke,
    /// The pending action failed.
    Failed,
}

/// What the driver must do next.
pub enum CycleAction {
    /// Query the wallet balance.
    FetchBalance,
    /// Draft a new campaign text.
    GeneratePost,
    /// Publish the drafted text as a note.
    Publish(String),
    /// Persist this balance as the new last-balance record.
    Store(u64),
    /// Wait for the next cycle.
    Sleep,
    /// Stop the loop.
    Halt,
}

/// Where in its cycle the loop stands; the balance seen this cycle is
/// carried along until it is stored.
pub enum CyclePhase {
    Fetching,
    Generating(u64),
    Publishing(u64),
    Storing(u64),
    Sleeping,
    Halted,
}

/// The whole state of the survival loop: the persisted last-seen balance
/// and the phase of the current cycle.
pub struct SurvivalState {
    pub last_balance: Option<u64>,
    pub phase: CyclePhase,
}

/// The transition relation of the loop. A post is drafted only when the
/// re-post heuristic fires; the balance seen this cycle becomes the
/// persisted last-seen value once stored; a failure, or an event that does
/// not answer the pending action, halts the loop.
pub open spec fn spec_step(s: SurvivalState, e: CycleEvent) -> (SurvivalState, CycleAction) {
    match (s.phase, e) {
        (CyclePhase::Fetching, CycleEvent::BalanceReady(current)) => {
            if spec_should_post(s.last_balance, current) {
                (
                    SurvivalState { phase: CyclePhase::Generating(current), ..s },
                    CycleAction::GeneratePost,
                )
            } else {
                (
                    SurvivalState { phase: CyclePhase::Storing(current), ..s },
                    CycleAction::Store(current),
                )
            }
        },
        (CyclePhase::Generating(current), CycleEvent::PostReady(text)) => (
            SurvivalState { phase: CyclePhase::Publishing(current), ..s },
            CycleAction::Publish(text),
        ),
        (CyclePhase::Publishing(current), CycleEvent::Published) => (
            SurvivalState { phase: CyclePhase::Storing(current), ..s },
            CycleAction::Store(current),
        ),
        (CyclePhase::Storing(current), CycleEvent::Stored) => (
            SurvivalState { last_balance: Some(current), phase: CyclePhase::Sleeping },
            CycleAction::Sleep,
        ),
        (CyclePhase::Sleeping, CycleEvent::Woke) => (
            SurvivalState { phase: CyclePhase::Fetching, ..s },
            CycleAction::FetchBalance,
        ),
        _ => (SurvivalState { phase: CyclePhase::Halted, ..s }, CycleAction::Halt),
    }
}

/// The state the loop starts in: the last-seen balance as read from the
/// record, one fetch away from its first decision.
pub fn init_state(last_balance: Option<u64>) -> (s: SurvivalState)
    ensures
        s.last_balance == last_balance,
        s.phase is Fetching,
{
    SurvivalState { last_balance, phase: CyclePhase::Fetching }
}

/// Advance the loop by one event and say what to do next.
pub fn step(state: SurvivalState, event: CycleEvent) -> (r: (SurvivalState, CycleAction))
    ensures
        r == spec_step(state, event),
{
    match (state.phase, event) {
        (CyclePhase::Fetching, CycleEvent::BalanceReady(current)) => {
            if should_post(state.last_balance, current) {
                (
                    SurvivalState { phase: CyclePhase::Generating(current), ..state },
                    CycleAction::GeneratePost,
                )
            } else {
                (
                    SurvivalState { phase: CyclePhase::Storing(current), ..state },
                    CycleAction::Store(current),
                )
            }
        },
        (CyclePhase::Generating(current), CycleEvent::PostReady(text)) => (
            SurvivalState { phase: CyclePhase::Publishing(current), ..state },
            CycleAction::Publish(text),
        ),
        (CyclePhase::Publishing(current), CycleEvent::Published) => (
            SurvivalState { phase: CyclePhase::Storing(current), ..state },
            CycleAction::Store(current),
        ),
        (CyclePhase::Storing(current), CycleEvent::Stored) => (
            SurvivalState { last_balance: Some(current), phase: CyclePhase::Sleeping },
            CycleAction::Sleep,
        ),
        (CyclePhase::Sleeping, CycleEvent::Woke) => (
            SurvivalState { phase: CyclePhase::Fetching, ..state },
            CycleAction::FetchBalance,
        ),
        (_, _) => (SurvivalState { phase: CyclePhase::Halted, ..state }, CycleAction::Halt),
    }
}

/// A new campaign is drafted only when the wallet just answered and the
/// re-post heuristic fires on that balance.
pub proof fn lemma_post_gated_by_heuristic(s: SurvivalState, e: CycleEvent)
    ensures
        spec_step(s, e).1 is GeneratePost ==> {
            &&& s.phase is Fetching
            &&& e matches CycleEvent::BalanceReady(current) && spec_should_post(
                s.last_balance,
                current,
            )
        },
{
}

/// A failed step halts the loop at once: no retry, no backoff.
pub proof fn lemma_failure_halts(s: SurvivalState, e: CycleEvent)
    ensures
        e is Failed ==> spec_step(s, e).0.phase is Halted && spec_step(s, e).1 is Halt,
{
}

/// The persisted last-seen balance changes only when a store of the
/// balance seen this cycle completes, and then becomes exactly that
/// balance.
pub proof fn lemma_last_balance_changes_only_on_store(s: SurvivalState, e: CycleEvent)
    ensures
        spec_step(s, e).0.last_balance != s.last_balance ==> {
            &&& s.phase matches CyclePhase::Storing(current) && spec_step(
                s,
                e,
            ).0.last_balance == Some(current)
            &&& e is Stored
        },
{
}

} // verus!
