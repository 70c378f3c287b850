//! The poll tick: every interval the driving loop looks at the player and
//! decides, in this order, whether to shut down, reset for another pass
//! through the playlist, refill the queue from the original arguments,
//! start the next track, or merely republish playback metadata. The
//! decision is a pure function of what the loop observes; performing it —
//! re-expanding the playlist, loading, updating the control surface — is
//! the host's part.

use vstd::prelude::*;

verus! {

/// What the poll loop observes of the playback handle: absent, playing,
/// paused, or present but stopped.
#[derive(Clone, Copy, PartialEq, Eq, Structural, Debug)]
pub enum HandleState {
    Absent,
    Playing,
    Paused,
    Stopped,
}

/// Nothing is actively sounding or ready to resume: no handle, or a handle
/// that has run out.
pub open spec fn stopped_spec(h: HandleState) -> bool {
    h is Absent || h is Stopped
}

/// One tick's worth of decisions, in the order the loop performs them.
#[derive(Clone, Copy, PartialEq, Eq, Structural, Debug)]
pub struct PollPlan {
    /// End the program: the queue is spent, nothing plays, and looping is
    /// off.
    pub terminate: bool,
    /// Drop the spent handle so the playlist can regenerate: same
    /// situation, looping on.
    pub clear_handle: bool,
    /// Re-expand the playlist from the original arguments into the queue.
    pub refill: bool,
    /// Advance into the next track.
    pub play_next: bool,
    /// Nothing else to do: republish the playing/paused position.
    pub update: bool,
}

/// Decides one poll tick from what the loop observes: whether the upcoming
/// queue is empty, the handle's state, and whether looping is configured.
///
/// With the queue empty and playback stopped, looping off terminates the
/// run without any refill; looping on clears the handle instead, and the
/// now-absent handle lets the queue refill and play anew. Otherwise a
/// stopped or absent handle advances, and a live one just has its position
/// republished.
pub fn poll_plan(upcoming_empty: bool, handle: HandleState, looping: bool) -> (plan: PollPlan)
    ensures
        plan.terminate == (upcoming_empty && stopped_spec(handle) && !looping),
        plan.clear_handle == (upcoming_empty && stopped_spec(handle) && looping),
        plan.refill == (!plan.terminate && upcoming_empty && (handle is Absent
            || plan.clear_handle)),
        plan.play_next == (!plan.terminate && (stopped_spec(handle) || handle is Absent
            || plan.clear_handle)),
        plan.update == (!plan.terminate && !plan.play_next),
{
    let stopped = match handle {
        HandleState::Absent => true,
        HandleState::Stopped => true,
        HandleState::Playing => false,
        HandleState::Paused => false,
    };
    let terminate = upcoming_empty && stopped && !looping;
    let clear_handle = upcoming_empty && stopped && looping;
    let handle_absent = match handle {
        HandleState::Absent => true,
        _ => false,
    } || clear_handle;
    let refill = !terminate && upcoming_empty && handle_absent;
    let play_next = !terminate && (stopped || handle_absent);
    let update = !terminate && !play_next;
    PollPlan { terminate, clear_handle, refill, play_next, update }
}

} // verus!
