//! The analysis loop as a state machine.
//!
//! The loop that turns chunks of samples into a level and a pitch estimate
//! waits, receives and computes by turns. What it waits for and what it
//! computes is left to its caller; what it does next is decided here. The
//! caller carries out the pending [`Action`], reports what came of it as an
//! [`Event`], and is told the next action.
//!
//! One round through the stages is a tick: look for a stop signal, wait for
//! a chunk, take a bounded number of further chunks that are already
//! waiting, measure the level, work on a bounded number of pitch frames,
//! and publish the last estimate if it says anything. The bounds of a tick
//! are its [`TickBudget`].

use crate::pitch::{PitchData, PitchDetector, PitchView, FRAME_SIZE, HOP_SIZE};
use crate::window::{newest, SlidingWindow};
use vstd::prelude::*;

verus! {

/// How much one tick may do.
#[derive(Clone, Copy, Debug, PartialEq, Eq, Structural)]
pub struct TickBudget {
    /// Longest wait for the first chunk of a tick, in milliseconds.
    pub receive_timeout_ms: u64,
    /// Chunks that may be taken after the first without waiting.
    pub max_extra_receives: usize,
    /// Pitch frames that may be worked on.
    pub max_frames: usize,
}

impl TickBudget {
    /// A wait of 50 ms, 8 further chunks, 3 frames.
    pub fn standard() -> (b: TickBudget)
        ensures
            b == (TickBudget { receive_timeout_ms: 50, max_extra_receives: 8, max_frames: 3 }),
    {
        TickBudget { receive_timeout_ms: 50, max_extra_receives: 8, max_frames: 3 }
    }
}

/// Where in a tick the loop stands.
#[derive(Clone, Copy, Debug, PartialEq, Eq, Structural)]
pub enum Stage {
    /// About to look for a stop signal.
    Poll,
    /// Waiting for the first chunk.
    Wait,
    /// Taking chunks that are already there; so many have been taken.
    Burst(usize),
    /// The level is due.
    Level,
    /// A frame is out for detection; so many were done before it.
    Frames(usize),
    /// This tick's estimate is out for publishing.
    Publish,
    /// The loop has ended.
    Finished,
}

/// What happened to the pending action.
pub enum Event<T> {
    /// The stop signal was looked for, and was there or not.
    StopChecked(bool),
    /// A chunk came: its interleaved samples, and the same chunk mixed
    /// down to one channel.
    Chunk(Vec<T>, Vec<T>),
    /// The wait ended without a chunk.
    Timeout,
    /// No chunk was waiting.
    Empty,
    /// The sender of the chunks is gone.
    Disconnected,
    /// The frame that was out gave this estimate.
    Estimate(PitchData),
    /// The action was carried out and has nothing to report.
    Done,
}

/// An event as plain values.
pub enum EventView<T> {
    StopChecked(bool),
    Chunk(Seq<T>, Seq<T>),
    Timeout,
    Empty,
    Disconnected,
    Estimate(PitchView),
    Done,
}

impl<T> View for Event<T> {
    type V = EventView<T>;

    open spec fn view(&self) -> EventView<T> {
        match self {
            Event::StopChecked(b) => EventView::StopChecked(*b),
            Event::Chunk(s, m) => EventView::Chunk(s@, m@),
            Event::Timeout => EventView::Timeout,
            Event::Empty => EventView::Empty,
            Event::Disconnected => EventView::Disconnected,
            Event::Estimate(d) => EventView::Estimate(d@),
            Event::Done => EventView::Done,
        }
    }
}

/// What the caller is to do next.
pub enum Action<T> {
    /// Look for a stop signal without waiting; answer with `StopChecked`.
    PollStop,
    /// Wait for a chunk, at most so many milliseconds; answer with
    /// `Chunk`, `Timeout` or `Disconnected`.
    Receive(u64),
    /// Take a chunk if one is waiting; answer with `Chunk`, `Empty` or
    /// `Disconnected`.
    ReceiveNow,
    /// Nothing has been heard yet: set the level to zero; answer with `Done`.
    Silence,
    /// Set the level from these samples, the newest last; answer with `Done`.
    Measure(Vec<T>),
    /// Estimate the pitch of this frame; answer with `Estimate`.
    Detect(Vec<T>),
    /// Make this estimate the current one; answer with `Done`.
    Publish(PitchData),
    /// Set the level to zero and the estimate to empty, and end the loop.
    Reset,
}

/// An action as plain values.
pub enum ActionView<T> {
    PollStop,
    Receive(u64),
    ReceiveNow,
    Silence,
    Measure(Seq<T>),
    Detect(Seq<T>),
    Publish(PitchView),
    Reset,
}

impl<T> View for Action<T> {
    type V = ActionView<T>;

    open spec fn view(&self) -> ActionView<T> {
        match self {
            Action::PollStop => ActionView::PollStop,
            Action::Receive(ms) => ActionView::Receive(*ms),
            Action::ReceiveNow => ActionView::ReceiveNow,
            Action::Silence => ActionView::Silence,
            Action::Measure(s) => ActionView::Measure(s@),
            Action::Detect(f) => ActionView::Detect(f@),
            Action::Publish(d) => ActionView::Publish(d@),
            Action::Reset => ActionView::Reset,
        }
    }
}

/// Capacity of the level window: twenty windows' worth of samples, as far
/// as the machine can count, and never less than one window.
pub open spec fn level_capacity(samples_per_window: nat) -> nat {
    let twenty = if samples_per_window * 20 <= usize::MAX {
        samples_per_window * 20
    } else {
        usize::MAX as nat
    };
    if twenty >= samples_per_window {
        twenty
    } else {
        samples_per_window
    }
}

/// Capacity of the pitch window: eight frames.
pub open spec fn pitch_capacity(frame_size: nat) -> nat {
    frame_size * 8
}

/// The state of the loop as plain values.
pub struct AnalyzerView<T> {
    /// Newest interleaved samples.
    pub level: Seq<T>,
    /// Newest mono samples.
    pub pitch: Seq<T>,
    pub stage: Stage,
    /// The last estimate of the tick that is under way.
    pub latest: Option<PitchView>,
    pub samples_per_window: nat,
    pub frame_size: nat,
    pub hop_size: nat,
    pub budget: TickBudget,
}

impl<T> AnalyzerView<T> {
    /// What every state that a run reaches satisfies: the windows are
    /// within their capacities, and no tick is beyond its budget.
    pub open spec fn valid(self) -> bool {
        &&& self.level.len() <= level_capacity(self.samples_per_window)
        &&& self.pitch.len() <= pitch_capacity(self.frame_size)
        &&& match self.stage {
            Stage::Burst(k) => k < self.budget.max_extra_receives,
            Stage::Frames(k) => k < self.budget.max_frames && self.pitch.len() >= self.frame_size,
            Stage::Publish => self.latest matches Some(d) && d.meaningful(),
            _ => true,
        }
    }

    /// The state with another stage.
    pub open spec fn at(self, stage: Stage) -> Self {
        AnalyzerView { stage, ..self }
    }

    /// The windows after a chunk arrived. An empty chunk leaves both as
    /// they are.
    pub open spec fn absorb(self, samples: Seq<T>, mono: Seq<T>) -> Self {
        if samples.len() == 0 {
            self
        } else {
            AnalyzerView {
                level: newest(self.level + samples, level_capacity(self.samples_per_window)),
                pitch: newest(self.pitch + mono, pitch_capacity(self.frame_size)),
                ..self
            }
        }
    }

    /// The state at the start of the analysis of a tick.
    pub open spec fn begin_analysis(self) -> Self {
        AnalyzerView { stage: Stage::Level, latest: None, ..self }
    }

    /// The stage after `done` frames of this tick: another frame while one
    /// is there and the budget allows it, then publishing if the last
    /// estimate says anything, else the next tick.
    pub open spec fn after_frames(self, done: nat) -> Self {
        if done < self.budget.max_frames && self.pitch.len() >= self.frame_size {
            self.at(Stage::Frames(done as usize))
        } else if self.latest matches Some(d) && d.meaningful() {
            self.at(Stage::Publish)
        } else {
            self.at(Stage::Poll)
        }
    }

    /// The state after an event. An event that does not answer the pending
    /// action changes nothing.
    pub open spec fn next(self, event: EventView<T>) -> Self {
        match (self.stage, event) {
            (Stage::Poll, EventView::StopChecked(true)) => self.at(Stage::Finished),
            (Stage::Poll, EventView::StopChecked(false)) => self.at(Stage::Wait),
            (Stage::Wait, EventView::Chunk(samples, mono)) => {
                if 0 < self.budget.max_extra_receives {
                    self.absorb(samples, mono).at(Stage::Burst(0))
                } else {
                    self.absorb(samples, mono).begin_analysis()
                }
            },
            (Stage::Wait, EventView::Timeout) => self.begin_analysis(),
            (Stage::Wait, EventView::Disconnected) => self.at(Stage::Finished),
            (Stage::Burst(k), EventView::Chunk(samples, mono)) => {
                if k + 1 < self.budget.max_extra_receives {
                    self.absorb(samples, mono).at(Stage::Burst((k + 1) as usize))
                } else {
                    self.absorb(samples, mono).begin_analysis()
                }
            },
            (Stage::Burst(_), EventView::Empty) => self.begin_analysis(),
            (Stage::Burst(_), EventView::Disconnected) => self.begin_analysis(),
            (Stage::Level, EventView::Done) => self.after_frames(0),
            (Stage::Frames(k), EventView::Estimate(d)) => {
                let hop = if self.hop_size <= self.pitch.len() {
                    self.hop_size as int
                } else {
                    self.pitch.len() as int
                };
                (AnalyzerView { pitch: self.pitch.skip(hop), latest: Some(d), ..self }).after_frames(
                    (k + 1) as nat,
                )
            },
            (Stage::Publish, EventView::Done) => self.at(Stage::Poll),
            _ => self,
        }
    }

    /// The action that the state waits for.
    pub open spec fn pending(self) -> ActionView<T> {
        match self.stage {
            Stage::Poll => ActionView::PollStop,
            Stage::Wait => ActionView::Receive(self.budget.receive_timeout_ms),
            Stage::Burst(_) => ActionView::ReceiveNow,
            Stage::Level => {
                if newest(self.level, self.samples_per_window).len() == 0 {
                    ActionView::Silence
                } else {
                    ActionView::Measure(newest(self.level, self.samples_per_window))
                }
            },
            Stage::Frames(_) => ActionView::Detect(self.pitch.take(self.frame_size as int)),
            Stage::Publish => ActionView::Publish(self.latest->0),
            Stage::Finished => ActionView::Reset,
        }
    }
}

/// No event leads out of the valid states: the windows stay within their
/// capacities whatever the sizes of the chunks, and a tick stays within
/// its budget.
pub proof fn lemma_next_stays_valid<T>(state: AnalyzerView<T>, event: EventView<T>)
    requires
        state.valid(),
    ensures
        state.next(event).valid(),
{
    match event {
        EventView::Chunk(samples, mono) => {
            crate::window::lemma_newest_bounded(
                state.level + samples,
                level_capacity(state.samples_per_window),
            );
            crate::window::lemma_newest_bounded(
                state.pitch + mono,
                pitch_capacity(state.frame_size),
            );
        },
        _ => {},
    }
}

/// Once a window's worth of samples has arrived in a chunk, the level is
/// measured over the newest of those samples alone: nothing that came
/// before them is looked at.
pub proof fn lemma_level_looks_at_the_newest<T>(
    state: AnalyzerView<T>,
    samples: Seq<T>,
    mono: Seq<T>,
)
    requires
        state.valid(),
        samples.len() >= state.samples_per_window,
    ensures
        newest(state.absorb(samples, mono).level, state.samples_per_window) == newest(
            samples,
            state.samples_per_window,
        ),
{
    let n = state.samples_per_window;
    let cap = level_capacity(n);
    let all = state.level + samples;
    let kept = newest(all, cap);
    crate::window::lemma_newest_bounded(all, cap);
    crate::window::lemma_newest_bounded(kept, n);
    crate::window::lemma_newest_bounded(samples, n);
}

/// After a stop signal was seen, or the sender of the chunks went away
/// during a wait, all that is left to do is the final reset, whatever is
/// reported afterwards.
pub proof fn lemma_finished_is_final<T>(state: AnalyzerView<T>, event: EventView<T>)
    requires
        state.stage == Stage::Finished,
    ensures
        state.next(event) == state,
        state.pending() == ActionView::<T>::Reset,
{
}

/// The loop for one stream: its two windows and its place in the tick.
pub struct Analyzer<T> {
    level: SlidingWindow<T>,
    pitch: SlidingWindow<T>,
    samples_per_window: usize,
    detector: PitchDetector,
    budget: TickBudget,
    stage: Stage,
    latest: Option<PitchData>,
}

impl<T> View for Analyzer<T> {
    type V = AnalyzerView<T>;

    closed spec fn view(&self) -> AnalyzerView<T> {
        AnalyzerView {
            level: self.level@,
            pitch: self.pitch@,
            stage: self.stage,
            latest: match self.latest {
                Some(d) => Some(d@),
                None => None,
            },
            samples_per_window: self.samples_per_window as nat,
            frame_size: self.detector@.frame_size,
            hop_size: self.detector@.hop_size,
            budget: self.budget,
        }
    }
}

impl<T: Copy> Analyzer<T> {
    /// The state is valid, and the windows have the capacities that the
    /// sizes call for.
    pub closed spec fn wf(&self) -> bool {
        &&& self@.valid()
        &&& self.level.limit() == level_capacity(self.samples_per_window as nat)
        &&& self.pitch.limit() == pitch_capacity(self.detector@.frame_size)
    }

    /// A loop for a stream with level windows of `samples_per_window`
    /// samples, with frames of 2048 samples every 512 and the standard
    /// budget. It starts with empty windows, about to look for a stop signal.
    pub fn new(samples_per_window: usize, sample_rate: u32) -> (a: Analyzer<T>)
        ensures
            a.wf(),
            a@ == (AnalyzerView::<T> {
                level: Seq::empty(),
                pitch: Seq::empty(),
                stage: Stage::Poll,
                latest: None,
                samples_per_window: samples_per_window as nat,
                frame_size: FRAME_SIZE as nat,
                hop_size: HOP_SIZE as nat,
                budget: TickBudget { receive_timeout_ms: 50, max_extra_receives: 8, max_frames: 3 },
            }),
    {
        Analyzer::with_budget(
            samples_per_window,
            PitchDetector::new(sample_rate, FRAME_SIZE, HOP_SIZE),
            TickBudget::standard(),
        )
    }

    /// A loop with a detector and a budget of the caller's choice.
    pub fn with_budget(samples_per_window: usize, detector: PitchDetector, budget: TickBudget) -> (a:
        Analyzer<T>)
        requires
            detector@.frame_size * 8 <= usize::MAX,
        ensures
            a.wf(),
            a@ == (AnalyzerView::<T> {
                level: Seq::empty(),
                pitch: Seq::empty(),
                stage: Stage::Poll,
                latest: None,
                samples_per_window: samples_per_window as nat,
                frame_size: detector@.frame_size,
                hop_size: detector@.hop_size,
                budget,
            }),
    {
        let twenty: usize = if samples_per_window > usize::MAX / 20 {
            usize::MAX
        } else {
            samples_per_window * 20
        };
        let level_cap: usize = if twenty >= samples_per_window {
            twenty
        } else {
            samples_per_window
        };
        let pitch_cap: usize = detector.frame_size() * 8;
        Analyzer {
            level: SlidingWindow::new(level_cap),
            pitch: SlidingWindow::new(pitch_cap),
            samples_per_window,
            detector,
            budget,
            stage: Stage::Poll,
            latest: None,
        }
    }

    /// Where in the tick the loop stands.
    pub fn stage(&self) -> (s: Stage)
        ensures
            s == self@.stage,
    {
        self.stage
    }

    /// Whether the loop has ended.
    pub fn is_finished(&self) -> (done: bool)
        ensures
            done == (self@.stage == Stage::Finished),
    {
        match self.stage {
            Stage::Finished => true,
            _ => false,
        }
    }

    fn absorb(&mut self, samples: &Vec<T>, mono: &Vec<T>)
        requires
            old(self).wf(),
        ensures
            final(self)@ == old(self)@.absorb(samples@, mono@),
            final(self)@.stage == old(self)@.stage,
            final(self).level.limit() == old(self).level.limit(),
            final(self).pitch.limit() == old(self).pitch.limit(),
            final(self).detector == old(self).detector,
            final(self).samples_per_window == old(self).samples_per_window,
            final(self)@.level.len() <= level_capacity(final(self)@.samples_per_window),
            final(self)@.pitch.len() <= pitch_capacity(final(self)@.frame_size),
    {
        if samples.len() > 0 {
            self.level.extend(samples.as_slice());
            self.pitch.extend(mono.as_slice());
        }
    }

    fn begin_analysis(&mut self)
        ensures
            final(self)@ == old(self)@.begin_analysis(),
            final(self).level == old(self).level,
            final(self).pitch == old(self).pitch,
            final(self).detector == old(self).detector,
            final(self).samples_per_window == old(self).samples_per_window,
    {
        self.stage = Stage::Level;
        self.latest = None;
    }

    fn settle(&mut self, done: usize)
        ensures
            final(self)@ == old(self)@.after_frames(done as nat),
            final(self).level == old(self).level,
            final(self).pitch == old(self).pitch,
            final(self).detector == old(self).detector,
            final(self).samples_per_window == old(self).samples_per_window,
    {
        let worth = match &self.latest {
            Some(d) => d.is_meaningful(),
            None => false,
        };
        if done < self.budget.max_frames && self.pitch.len() >= self.detector.frame_size() {
            self.stage = Stage::Frames(done);
        } else if worth {
            self.stage = Stage::Publish;
        } else {
            self.stage = Stage::Poll;
        }
    }

    /// The action that the loop waits for.
    pub fn pending(&self) -> (action: Action<T>)
        requires
            self.wf(),
        ensures
            action@ == self@.pending(),
    {
        match self.stage {
            Stage::Poll => Action::PollStop,
            Stage::Wait => Action::Receive(self.budget.receive_timeout_ms),
            Stage::Burst(_) => Action::ReceiveNow,
            Stage::Level => {
                let tail = self.level.latest(self.samples_per_window);
                if tail.len() == 0 {
                    Action::Silence
                } else {
                    Action::Measure(tail)
                }
            },
            Stage::Frames(_) => {
                let size = self.detector.frame_size();
                Action::Detect(self.pitch.oldest(size))
            },
            Stage::Publish => match &self.latest {
                Some(d) => Action::Publish(d.clone()),
                None => Action::PollStop,
            },
            Stage::Finished => Action::Reset,
        }
    }

    /// Takes in what came of the pending action and tells the next one.
    pub fn step(&mut self, event: Event<T>) -> (action: Action<T>)
        requires
            old(self).wf(),
        ensures
            final(self).wf(),
            final(self)@.valid(),
            final(self)@ == old(self)@.next(event@),
            action@ == final(self)@.pending(),
    {
        proof {
            lemma_next_stays_valid(old(self)@, event@);
        }
        let stage = self.stage;
        match event {
            Event::StopChecked(stop) => {
                match stage {
                    Stage::Poll => {
                        if stop {
                            self.stage = Stage::Finished;
                        } else {
                            self.stage = Stage::Wait;
                        }
                    },
                    _ => {},
                }
            },
            Event::Chunk(samples, mono) => {
                match stage {
                    Stage::Wait => {
                        self.absorb(&samples, &mono);
                        if 0 < self.budget.max_extra_receives {
                            self.stage = Stage::Burst(0);
                        } else {
                            self.begin_analysis();
                        }
                    },
                    Stage::Burst(k) => {
                        self.absorb(&samples, &mono);
                        if k + 1 < self.budget.max_extra_receives {
                            self.stage = Stage::Burst(k + 1);
                        } else {
                            self.begin_analysis();
                        }
                    },
                    _ => {},
                }
            },
            Event::Timeout => {
                match stage {
                    Stage::Wait => {
                        self.begin_analysis();
                    },
                    _ => {},
                }
            },
            Event::Empty => {
                match stage {
                    Stage::Burst(_) => {
                        self.begin_analysis();
                    },
                    _ => {},
                }
            },
            Event::Disconnected => {
                match stage {
                    Stage::Wait => {
                        self.stage = Stage::Finished;
                    },
                    Stage::Burst(_) => {
                        self.begin_analysis();
                    },
                    _ => {},
                }
            },
            Event::Estimate(d) => {
                match stage {
                    Stage::Frames(k) => {
                        self.pitch.advance(self.detector.hop_size());
                        self.latest = Some(d);
                        self.settle(k + 1);
                    },
                    _ => {},
                }
            },
            Event::Done => {
                match stage {
                    Stage::Level => {
                        self.settle(0);
                    },
                    Stage::Publish => {
                        self.stage = Stage::Poll;
                    },
                    _ => {},
                }
            },
        }
        self.pending()
    }
}

} // verus!
