//! One voice session: the waiting tracks, the track now playing, and the handle of the
//! status message; and the steps that lead from a request or a finished track to the
//! next track that plays.

use crate::queue::QueueStore;
use crate::track::TrackMetadata;
use vstd::prelude::*;

verus! {

/// What started a run of steps towards the next track.
#[derive(Clone, Copy, Debug, PartialEq, Eq, Structural)]
pub enum Origin {
    /// A user asked to play or to queue tracks.
    Request,
    /// The audio engine reported that the current track ended.
    TrackEnd,
}

/// Why a request to play failed.
#[derive(Clone, Copy, Debug, PartialEq, Eq, Structural)]
pub enum PlaybackError {
    /// None of the requested tracks could be resolved.
    NoPlayableTrack,
    /// The caller is in no voice session and must join one first.
    NotConnected,
    /// The audio engine refused the track or the control.
    TransportRejected,
}

impl PlaybackError {
    /// The text shown to the user for this error.
    pub fn message(&self) -> (r: &'static str)
        ensures
            r@ == error_text(*self)@,
    {
        match self {
            PlaybackError::NoPlayableTrack => "No tracks found",
            PlaybackError::NotConnected => "Join a voice channel before invoking this command",
            PlaybackError::TransportRejected => "The player refused the request",
        }
    }
}

/// The text of each error.
pub open spec fn error_text(e: PlaybackError) -> &'static str {
    match e {
        PlaybackError::NoPlayableTrack => "No tracks found",
        PlaybackError::NotConnected => "Join a voice channel before invoking this command",
        PlaybackError::TransportRejected => "The player refused the request",
    }
}

/// What the caller does next in a run of steps.
#[derive(Debug)]
pub enum Step<D> {
    /// Resolve the metadata of this track, then report the outcome with `resolved`
    /// or `resolution_failed`.
    Resolve(D),
    /// The track just resolved is now current: hand it to the audio engine, create
    /// the status message (when `create_status`) or edit it, and bind a track-end
    /// handler and a progress reporter to it.
    Install { create_status: bool },
    /// A request found nothing playable; nothing else changed.
    Failed(PlaybackError),
    /// The queue ran out after a track ended: nothing plays, and no reporter is bound.
    Exhausted,
}

/// The state of a session, as contracts see it.
pub struct SessionView<D, M> {
    pub queue: Seq<D>,
    pub current: Option<TrackMetadata>,
    pub status_message: Option<M>,
}

/// The playback state of one voice session.
pub struct Session<D, M> {
    queue: QueueStore<D>,
    current: Option<TrackMetadata>,
    status_message: Option<M>,
}

impl<D, M> View for Session<D, M> {
    type V = SessionView<D, M>;

    closed spec fn view(&self) -> SessionView<D, M> {
        SessionView { queue: self.queue@, current: self.current, status_message: self.status_message }
    }
}

/// The step that taking the next track from `before` gives, for a run started by `origin`.
pub open spec fn pull_step<D, M>(
    origin: Origin,
    before: SessionView<D, M>,
    after: SessionView<D, M>,
    step: Step<D>,
) -> bool {
    &&& after.status_message == before.status_message
    &&& if before.queue.len() > 0 {
        &&& step == Step::<D>::Resolve(before.queue[0])
        &&& after.queue == before.queue.drop_first()
        &&& after.current == before.current
    } else {
        &&& after.queue == before.queue
        &&& match origin {
            Origin::Request => step == Step::<D>::Failed(PlaybackError::NoPlayableTrack)
                && after.current == before.current,
            Origin::TrackEnd => step == Step::<D>::Exhausted && after.current is None,
        }
    }
}

/// The change that a resolved track makes: it becomes current, and the caller is told
/// whether the status message is still to be created.
pub open spec fn install_step<D, M>(
    before: SessionView<D, M>,
    metadata: TrackMetadata,
    after: SessionView<D, M>,
    step: Step<D>,
) -> bool {
    &&& after.queue == before.queue
    &&& after.current == Some(metadata)
    &&& after.status_message == before.status_message
    &&& step == (Step::<D>::Install { create_status: before.status_message is None })
}

/// When a track ends with `[a, b, c]` waiting and `a` and `b` fail to resolve, the
/// same run goes on to `c`, which becomes current, and the queue is left empty; no
/// step of the run reports an error.
pub proof fn lemma_failed_resolutions_are_skipped<D, M>(
    a: D,
    b: D,
    c: D,
    metadata: TrackMetadata,
    states: Seq<SessionView<D, M>>,
    steps: Seq<Step<D>>,
)
    requires
        states.len() == 5,
        steps.len() == 4,
        states[0].queue == seq![a, b, c],
        pull_step(Origin::TrackEnd, states[0], states[1], steps[0]),
        pull_step(Origin::TrackEnd, states[1], states[2], steps[1]),
        pull_step(Origin::TrackEnd, states[2], states[3], steps[2]),
        install_step(states[3], metadata, states[4], steps[3]),
    ensures
        steps[0] == Step::<D>::Resolve(a),
        steps[1] == Step::<D>::Resolve(b),
        steps[2] == Step::<D>::Resolve(c),
        steps[3] is Install,
        states[4].current == Some(metadata),
        states[4].queue.len() == 0,
        forall|i: int| 0 <= i < 4 ==> !(#[trigger] steps[i] is Failed),
{
    assert(states[1].queue == seq![b, c]);
    assert(states[2].queue == seq![c]);
}

/// When a track ends with nothing waiting, nothing is current afterwards and no
/// progress reporter is bound; a following request that replaces the queue starts
/// from its own first track.
pub proof fn lemma_exhaustion_then_fresh_start<D, M>(
    before: SessionView<D, M>,
    idle: SessionView<D, M>,
    ended: Step<D>,
    items: Seq<D>,
    after: SessionView<D, M>,
    started: Step<D>,
)
    requires
        before.queue.len() == 0,
        pull_step(Origin::TrackEnd, before, idle, ended),
        pull_step(Origin::Request, SessionView { queue: items, ..idle }, after, started),
    ensures
        ended is Exhausted,
        idle.current is None,
        idle.queue.len() == 0,
        items.len() > 0 ==> started == Step::<D>::Resolve(items[0]) && after.queue
            == items.drop_first(),
        items.len() == 0 ==> started == Step::<D>::Failed(PlaybackError::NoPlayableTrack),
{
}

impl<D, M> Session<D, M> {
    /// A session with nothing queued, nothing playing and no status message.
    pub fn new() -> (r: Self)
        ensures
            r@.queue == Seq::<D>::empty(),
            r@.current is None,
            r@.status_message is None,
    {
        Session { queue: QueueStore::new(), current: None, status_message: None }
    }

    fn pull(&mut self, origin: Origin) -> (r: Step<D>)
        ensures
            pull_step(origin, old(self)@, final(self)@, r),
    {
        match self.queue.pop_next() {
            Some(d) => Step::Resolve(d),
            None => {
                match origin {
                    Origin::Request => Step::Failed(PlaybackError::NoPlayableTrack),
                    Origin::TrackEnd => {
                        self.current = None;
                        Step::Exhausted
                    },
                }
            },
        }
    }

    /// Takes the resolved tracks of a request: with `additive` they are queued behind
    /// what waits, else they replace it (the caller stops the current track first).
    /// Then the first of them is taken for resolution.
    pub fn start_or_enqueue(&mut self, items: Vec<D>, additive: bool) -> (r: Step<D>)
        ensures
            pull_step(
                Origin::Request,
                SessionView {
                    queue: if additive { old(self)@.queue + items@ } else { items@ },
                    ..old(self)@
                },
                final(self)@,
                r,
            ),
    {
        if additive {
            self.queue.append(items);
        } else {
            self.queue.replace(items);
        }
        self.pull(Origin::Request)
    }

    /// The current track ended: the next waiting track is taken for resolution, or,
    /// when none waits, nothing is current any more.
    pub fn on_track_end(&mut self) -> (r: Step<D>)
        ensures
            pull_step(Origin::TrackEnd, old(self)@, final(self)@, r),
    {
        self.pull(Origin::TrackEnd)
    }

    /// The track last handed out could not be resolved: it is dropped, and the next
    /// one is taken in the same run.
    pub fn resolution_failed(&mut self, origin: Origin) -> (r: Step<D>)
        ensures
            pull_step(origin, old(self)@, final(self)@, r),
    {
        self.pull(origin)
    }

    /// The track last handed out resolved to `metadata`: it becomes current.
    pub fn resolved(&mut self, metadata: TrackMetadata) -> (r: Step<D>)
        ensures
            install_step(old(self)@, metadata, final(self)@, r),
    {
        let create_status = self.status_message.is_none();
        self.current = Some(metadata);
        Step::Install { create_status }
    }

    /// Records the status message that was created for this session.
    pub fn set_status_message(&mut self, message: M)
        ensures
            final(self)@.status_message == Some(message),
            final(self)@.queue == old(self)@.queue,
            final(self)@.current == old(self)@.current,
    {
        self.status_message = Some(message);
    }

    /// The status message, once created.
    pub fn status_message(&self) -> (r: Option<&M>)
        ensures
            r == match self@.status_message {
                Some(m) => Some(&m),
                None => None::<&M>,
            },
    {
        match &self.status_message {
            Some(m) => Some(m),
            None => None,
        }
    }

    /// The metadata of the track now playing.
    pub fn current(&self) -> (r: Option<&TrackMetadata>)
        ensures
            r == match self@.current {
                Some(m) => Some(&m),
                None => None::<&TrackMetadata>,
            },
    {
        match &self.current {
            Some(m) => Some(m),
            None => None,
        }
    }

    /// Whether a track is current and its status message exists: what a progress
    /// reporter needs to go on.
    pub fn has_current(&self) -> (r: bool)
        ensures
            r == (self@.current is Some && self@.status_message is Some),
    {
        self.current.is_some() && self.status_message.is_some()
    }

    /// Puts the waiting tracks in a random order.
    pub fn shuffle(&mut self)
        ensures
            final(self)@.queue.len() == old(self)@.queue.len(),
            final(self)@.queue.to_multiset() == old(self)@.queue.to_multiset(),
            final(self)@.current == old(self)@.current,
            final(self)@.status_message == old(self)@.status_message,
    {
        self.queue.shuffle();
    }

    /// The waiting tracks in playback order.
    pub fn snapshot(&self) -> (r: &[D])
        ensures
            r@ == self@.queue,
    {
        self.queue.snapshot()
    }

    /// How many tracks wait.
    pub fn queue_len(&self) -> (r: usize)
        ensures
            r == self@.queue.len(),
    {
        self.queue.len()
    }
}

} // verus!
