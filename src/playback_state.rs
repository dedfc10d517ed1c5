use vstd::prelude::*;

verus! {

/// Whether the active track is advancing or held.
#[derive(Clone, Copy, Debug, PartialEq, Eq, Structural)]
pub enum Phase {
    Playing,
    Paused,
}

/// What the renderer does after one poll of the shared state.
#[derive(Clone, Copy, Debug, PartialEq, Eq, Structural)]
pub enum TickAction {
    /// Draw the frame for this many elapsed seconds, then wait one second.
    Frame(u64),
    /// The track is paused: poll again after a short wait.
    Wait,
    /// The track is complete or the session was cancelled: stop rendering.
    Finished,
}

/// Something that happens to the shared state: a command of the control path,
/// or one poll of the renderer.
pub enum Event {
    Play,
    Pause,
    Cancel,
    Tick,
}

/// The mathematical value of the shared playback state.
pub struct PlaybackView {
    pub phase: Phase,
    pub elapsed: nat,
    pub duration: nat,
    pub cancelled: bool,
}

/// The state that the control path and the renderer share: the phase, the
/// seconds rendered so far, the duration of the track being rendered, and
/// whether rendering was cancelled.
pub struct MusicTimeBarHandler {
    phase: Phase,
    elapsed: u64,
    duration: u64,
    cancelled: bool,
}

impl View for MusicTimeBarHandler {
    type V = PlaybackView;

    closed spec fn view(&self) -> PlaybackView {
        PlaybackView {
            phase: self.phase,
            elapsed: self.elapsed as nat,
            duration: self.duration as nat,
            cancelled: self.cancelled,
        }
    }
}

/// The longest duration the renderer is bound to; longer ones are clamped so
/// that the elapsed counter cannot overflow.
pub const MAX_DURATION: u64 = 0xffff_ffff_ffff_fffe;

/// A renderer tick moves the clock: the session is live, playing, and the
/// track is not yet complete.
pub open spec fn advancing(s: PlaybackView) -> bool {
    !s.cancelled && s.phase == Phase::Playing && s.elapsed <= s.duration
}

/// The state after one event.
pub open spec fn step(s: PlaybackView, e: Event) -> PlaybackView {
    match e {
        Event::Play => PlaybackView { phase: Phase::Playing, ..s },
        Event::Pause => PlaybackView { phase: Phase::Paused, ..s },
        Event::Cancel => PlaybackView { cancelled: true, ..s },
        Event::Tick => if advancing(s) {
            PlaybackView { elapsed: s.elapsed + 1, ..s }
        } else {
            s
        },
    }
}

/// The action the renderer takes on a tick from state `s`.
pub open spec fn tick_action(s: PlaybackView) -> TickAction {
    if s.cancelled {
        TickAction::Finished
    } else if s.phase == Phase::Paused {
        TickAction::Wait
    } else if s.elapsed > s.duration {
        TickAction::Finished
    } else {
        TickAction::Frame(s.elapsed as u64)
    }
}

/// The state after a schedule of events, applied in order.
pub open spec fn run(s: PlaybackView, events: Seq<Event>) -> PlaybackView
    decreases events.len(),
{
    if events.len() == 0 {
        s
    } else {
        step(run(s, events.drop_last()), events.last())
    }
}

/// How many ticks of a schedule happen while the clock is moving.
pub open spec fn advancing_ticks(s: PlaybackView, events: Seq<Event>) -> nat
    decreases events.len(),
{
    if events.len() == 0 {
        0
    } else {
        advancing_ticks(s, events.drop_last()) + if events.last() is Tick && advancing(
            run(s, events.drop_last()),
        ) {
            1nat
        } else {
            0nat
        }
    }
}

/// The state that a fresh track starts from.
pub open spec fn fresh(duration: nat) -> PlaybackView {
    PlaybackView { phase: Phase::Playing, elapsed: 0, duration: duration, cancelled: false }
}

/// Over any schedule of play, pause and cancel commands interleaved with
/// renderer ticks, the elapsed seconds grow by exactly one for each tick taken
/// while playing a track that is not yet complete, and by nothing otherwise;
/// phase changes, cancellation and duration never touch them.
pub proof fn lemma_elapsed_counts_playing_ticks(s: PlaybackView, events: Seq<Event>)
    ensures
        run(s, events).elapsed == s.elapsed + advancing_ticks(s, events),
        run(s, events).duration == s.duration,
    decreases events.len(),
{
    if events.len() > 0 {
        lemma_elapsed_counts_playing_ticks(s, events.drop_last());
    }
}

/// A tick while paused leaves the state as it was.
pub proof fn lemma_paused_tick_is_still(s: PlaybackView)
    requires
        s.phase == Phase::Paused,
    ensures
        step(s, Event::Tick) == s,
        tick_action(s) == TickAction::Wait || tick_action(s) == TickAction::Finished,
{
}

/// Once the elapsed seconds have passed the duration, no schedule of events
/// moves them again: a completed track never resumes.
pub proof fn lemma_complete_stays_complete(s: PlaybackView, events: Seq<Event>)
    requires
        s.elapsed > s.duration,
    ensures
        run(s, events).elapsed == s.elapsed,
        run(s, events).duration == s.duration,
        !run(s, events).cancelled ==> run(s, events).phase == Phase::Playing ==> tick_action(
            run(s, events),
        ) == TickAction::Finished,
    decreases events.len(),
{
    if events.len() > 0 {
        lemma_complete_stays_complete(s, events.drop_last());
    }
}

impl MusicTimeBarHandler {
    /// The state kept across the handler's operations: the bound duration
    /// leaves room to count one past it.
    pub closed spec fn well_formed(&self) -> bool {
        self.duration <= MAX_DURATION
    }

    /// A playing state with nothing elapsed and no track bound yet.
    pub fn new() -> (r: Self)
        ensures
            r@ == fresh(0),
            r.well_formed(),
    {
        MusicTimeBarHandler { phase: Phase::Playing, elapsed: 0, duration: 0, cancelled: false }
    }

    /// Binds the state to a new track of `duration` seconds (clamped to
    /// `MAX_DURATION`), playing from its start.
    pub fn start_track(&mut self, duration: u64)
        ensures
            final(self)@ == fresh(if duration <= MAX_DURATION { duration as nat } else { MAX_DURATION as nat }),
            final(self).well_formed(),
    {
        self.phase = Phase::Playing;
        self.elapsed = 0;
        self.duration = if duration <= MAX_DURATION { duration } else { MAX_DURATION };
        self.cancelled = false;
    }

    /// Marks the track as playing.
    pub fn play(&mut self)
        ensures
            final(self)@ == step(old(self)@, Event::Play),
            old(self).well_formed() ==> final(self).well_formed(),
    {
        self.phase = Phase::Playing;
    }

    /// Marks the track as paused.
    pub fn pause(&mut self)
        ensures
            final(self)@ == step(old(self)@, Event::Pause),
            old(self).well_formed() ==> final(self).well_formed(),
    {
        self.phase = Phase::Paused;
    }

    /// Tells the renderer to stop at its next poll.
    pub fn cancel(&mut self)
        ensures
            final(self)@ == step(old(self)@, Event::Cancel),
            old(self).well_formed() ==> final(self).well_formed(),
    {
        self.cancelled = true;
    }

    /// One poll of the renderer: reads the phase and, while playing a track
    /// that is not complete, hands out the elapsed seconds to draw and counts
    /// one more second, all in one step.
    pub fn tick(&mut self) -> (r: TickAction)
        requires
            old(self).well_formed(),
        ensures
            r == tick_action(old(self)@),
            final(self)@ == step(old(self)@, Event::Tick),
            final(self).well_formed(),
    {
        if self.cancelled {
            TickAction::Finished
        } else if self.phase == Phase::Paused {
            TickAction::Wait
        } else if self.elapsed > self.duration {
            TickAction::Finished
        } else {
            let shown = self.elapsed;
            self.elapsed = self.elapsed + 1;
            TickAction::Frame(shown)
        }
    }

    pub fn get_phase(&self) -> (r: Phase)
        ensures
            r == self@.phase,
    {
        self.phase
    }

    pub fn get_elapsed(&self) -> (r: u64)
        ensures
            r == self@.elapsed,
    {
        self.elapsed
    }

    pub fn get_duration(&self) -> (r: u64)
        ensures
            r == self@.duration,
    {
        self.duration
    }

    pub fn is_cancelled(&self) -> (r: bool)
        ensures
            r == self@.cancelled,
    {
        self.cancelled
    }
}

} // verus!
