//! The periodic reporter bound to one playing track: it keeps the status message up to
//! date while the track plays, and stops itself after one last update.

use crate::track::{PlayStatus, TrackMetadata};
use vstd::prelude::*;

verus! {

/// What the caller does on a tick.
#[derive(Clone, Copy, Debug, PartialEq, Eq, Structural)]
pub enum TickAction {
    /// Render the progress and edit the status message; more ticks follow.
    Render,
    /// Render and edit once more, then cancel the reporter's schedule.
    RenderFinal,
    /// The reporter has finished: cancel the schedule, edit nothing.
    Cancel,
}

/// Whether the action edits the status message.
pub open spec fn renders(a: TickAction) -> bool {
    a is Render || a is RenderFinal
}

/// Whether a reporter is still active after a tick, and what the tick does, given
/// whether it was active, whether the track's status is terminal (stopped, paused or
/// ended) and whether the session still has a current track and a status message.
pub open spec fn tick_outcome(active: bool, terminal: bool, current: bool) -> (bool, TickAction) {
    if !active {
        (false, TickAction::Cancel)
    } else if terminal || !current {
        (false, TickAction::RenderFinal)
    } else {
        (true, TickAction::Render)
    }
}

/// Whether a status stops the reporter.
pub open spec fn terminal_status(s: PlayStatus) -> bool {
    s is Stop || s is Pause || s is End
}

/// The actions of the ticks of a reporter that starts with `active`, for the observed
/// statuses and session states `obs`, in order.
pub open spec fn tick_actions(active: bool, obs: Seq<(PlayStatus, bool)>) -> Seq<TickAction>
    decreases obs.len(),
{
    if obs.len() == 0 {
        Seq::empty()
    } else {
        let (next, action) = tick_outcome(active, terminal_status(obs[0].0), obs[0].1);
        seq![action] + tick_actions(next, obs.drop_first())
    }
}

/// A finished reporter does nothing on any later tick.
pub proof fn lemma_finished_reporter_stays_silent(obs: Seq<(PlayStatus, bool)>)
    ensures
        forall|i: int| 0 <= i < obs.len() ==> #[trigger] tick_actions(false, obs)[i] == TickAction::Cancel,
        tick_actions(false, obs).len() == obs.len(),
    decreases obs.len(),
{
    if obs.len() > 0 {
        lemma_finished_reporter_stays_silent(obs.drop_first());
        let rest = tick_actions(false, obs.drop_first());
        assert(tick_actions(false, obs) == seq![TickAction::Cancel] + rest);
    }
}

/// Once the audio engine reports that the bound track ended, exactly one more render
/// and edit happens, and every later tick, whatever it observes, does nothing but
/// cancel.
pub proof fn lemma_end_renders_once(obs: Seq<(PlayStatus, bool)>)
    requires
        obs.len() > 0,
        obs[0].0 is End,
    ensures
        tick_actions(true, obs)[0] == TickAction::RenderFinal,
        forall|i: int| 1 <= i < obs.len() ==> #[trigger] tick_actions(true, obs)[i] == TickAction::Cancel,
        forall|i: int| 1 <= i < obs.len() ==> !renders(#[trigger] tick_actions(true, obs)[i]),
{
    lemma_finished_reporter_stays_silent(obs.drop_first());
    let rest = tick_actions(false, obs.drop_first());
    assert(tick_actions(true, obs) == seq![TickAction::RenderFinal] + rest);
    assert forall|i: int| 1 <= i < obs.len() implies #[trigger] tick_actions(true, obs)[i]
        == TickAction::Cancel by {
        assert(tick_actions(true, obs)[i] == rest[i - 1]);
    }
}

/// A progress reporter bound to one track.
pub struct ProgressReporter {
    track: TrackMetadata,
    active: bool,
}

impl ProgressReporter {
    /// A reporter for the track with this metadata, active until its first terminal tick.
    pub fn new(track: TrackMetadata) -> (r: Self)
        ensures
            r.is_active_spec(),
            r.track_spec() == track,
    {
        ProgressReporter { track, active: true }
    }

    /// Whether more ticks are wanted.
    pub closed spec fn is_active_spec(&self) -> bool {
        self.active
    }

    /// The metadata of the bound track.
    pub closed spec fn track_spec(&self) -> TrackMetadata {
        self.track
    }

    /// Whether more ticks are wanted.
    pub fn is_active(&self) -> (r: bool)
        ensures
            r == self.is_active_spec(),
    {
        self.active
    }

    /// The metadata of the bound track, which each render shows.
    pub fn track(&self) -> (r: &TrackMetadata)
        ensures
            *r == self.track_spec(),
    {
        &self.track
    }

    /// One tick: `status` is what the audio engine reports for the bound track, and
    /// `current` whether the session still has a current track and a status message.
    /// A terminal status, or a session that lost its current track, brings one last
    /// render; after that every tick only cancels.
    pub fn tick(&mut self, status: &PlayStatus, current: bool) -> (r: TickAction)
        ensures
            (final(self).is_active_spec(), r) == tick_outcome(
                old(self).is_active_spec(),
                terminal_status(*status),
                current,
            ),
            final(self).track_spec() == old(self).track_spec(),
    {
        if !self.active {
            TickAction::Cancel
        } else if status.is_terminal() || !current {
            self.active = false;
            TickAction::RenderFinal
        } else {
            TickAction::Render
        }
    }
}

} // verus!
