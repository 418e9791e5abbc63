//! The stream session: the one live capture stream of a process, the level
//! and the pitch estimate that it publishes, and its life cycle.
//!
//! A session is idle, starting, running or stopping. The resources of a
//! running stream (the hardware stream, the analysis thread, the stop
//! signal's sender) are the caller's; the session keeps them as one value,
//! so that they are all there or none is. Starting and stopping take two
//! calls each, between which the caller does the work on the device and
//! need not hold a lock on the session.

use crate::bits::{clamp_unit, clamped_unit, in_unit_interval, is_nan, lemma_clamped_unit, ZERO};
use crate::error::{AudioError, ErrorView};
use crate::pitch::{PitchData, PitchView};
use vstd::prelude::*;
use vstd::string::*;

verus! {

/// The states of a session.
#[derive(Clone, Copy, Debug, PartialEq, Eq, Structural)]
pub enum Phase {
    Idle,
    Starting,
    Running,
    Stopping,
}

/// What a completed call reports.
#[derive(Clone, Copy, Debug, PartialEq, Eq, Structural)]
pub enum StatusMessage {
    Started,
    AlreadyRunning,
    Stopped,
    AlreadyStopped,
}

impl StatusMessage {
    pub open spec fn label(self) -> Seq<char> {
        match self {
            StatusMessage::Started => "Stream started"@,
            StatusMessage::AlreadyRunning => "Stream already running"@,
            StatusMessage::Stopped => "Stream stopped"@,
            StatusMessage::AlreadyStopped => "Stream already stopped"@,
        }
    }

    /// The words of the report.
    pub fn text(self) -> (t: String)
        ensures
            t@ == self.label(),
    {
        match self {
            StatusMessage::Started => String::from_str("Stream started"),
            StatusMessage::AlreadyRunning => String::from_str("Stream already running"),
            StatusMessage::Stopped => String::from_str("Stream stopped"),
            StatusMessage::AlreadyStopped => String::from_str("Stream already stopped"),
        }
    }
}

/// What the caller of a start is to do.
#[derive(Clone, Copy, Debug, PartialEq, Eq, Structural)]
pub enum StartStep {
    /// A stream is running: nothing is to be opened.
    AlreadyRunning,
    /// Open the device, then report with `finish_start` or `abort_start`.
    Proceed,
}

/// What the caller of a stop is to do.
pub enum StopStep<H> {
    /// No stream is running: nothing is to be closed.
    AlreadyStopped,
    /// Signal the analysis to stop, drop the stream, join the thread,
    /// then report with `finish_stop`. These are the stream's resources.
    Teardown(H),
}

/// A session as plain values.
pub struct SessionView<H> {
    pub phase: Phase,
    /// The resources of the running stream.
    pub live: Option<H>,
    /// The selector of the device that the stream is on.
    pub current_device: Option<Seq<char>>,
    /// Bit pattern of the level.
    pub level: u32,
    pub pitch: PitchView,
}

impl<H> SessionView<H> {
    /// What holds of every session: it has resources exactly while it is
    /// running, it knows its device while it is running or stopping, and
    /// while it is idle or starting it shows no level and no estimate.
    pub open spec fn valid(self) -> bool {
        &&& self.live is Some <==> self.phase == Phase::Running
        &&& self.current_device is Some <==> (self.phase == Phase::Running || self.phase
            == Phase::Stopping)
        &&& (self.phase == Phase::Idle || self.phase == Phase::Starting) ==> self.level == ZERO
            && self.pitch == PitchView::empty()
        &&& in_unit_interval(self.level) || is_nan(self.level)
    }

    /// A session that has not been started.
    pub open spec fn idle() -> Self {
        SessionView {
            phase: Phase::Idle,
            live: None,
            current_device: None,
            level: ZERO,
            pitch: PitchView::empty(),
        }
    }

    /// Whether the analysis of a stream may be publishing.
    pub open spec fn publishing(self) -> bool {
        self.phase == Phase::Running || self.phase == Phase::Stopping
    }

    /// The session after the first call of a start.
    pub open spec fn begin_start(self) -> Self {
        if self.phase == Phase::Idle {
            SessionView { phase: Phase::Starting, ..self }
        } else {
            self
        }
    }

    /// What the first call of a start answers.
    pub open spec fn start_answer(self) -> Result<StartStep, ErrorView> {
        match self.phase {
            Phase::Idle => Ok(StartStep::Proceed),
            Phase::Running => Ok(StartStep::AlreadyRunning),
            _ => Err(ErrorView::StateLockFailure),
        }
    }

    /// The session after a start was completed with the stream's
    /// resources and the selector of its device.
    pub open spec fn finish_start(self, device: Seq<char>, live: H) -> Self {
        if self.phase == Phase::Starting {
            SessionView {
                phase: Phase::Running,
                live: Some(live),
                current_device: Some(device),
                level: self.level,
                pitch: PitchView::empty(),
            }
        } else {
            self
        }
    }

    /// The session after a start was given up.
    pub open spec fn abort_start(self) -> Self {
        if self.phase == Phase::Starting {
            SessionView { phase: Phase::Idle, ..self }
        } else {
            self
        }
    }

    /// The session after the first call of a stop.
    pub open spec fn begin_stop(self) -> Self {
        if self.phase == Phase::Running {
            SessionView { phase: Phase::Stopping, live: None, ..self }
        } else {
            self
        }
    }

    /// The session after a stop was completed.
    pub open spec fn finish_stop(self) -> Self {
        if self.phase == Phase::Stopping {
            SessionView::idle()
        } else {
            self
        }
    }

    /// The session after the analysis published a level.
    pub open spec fn publish_level(self, level: u32) -> Self {
        if self.publishing() {
            SessionView { level: clamped_unit(level), ..self }
        } else {
            self
        }
    }

    /// The session after the analysis published an estimate.
    pub open spec fn publish_pitch(self, pitch: PitchView) -> Self {
        if self.publishing() && pitch.meaningful() {
            SessionView { pitch, ..self }
        } else {
            self
        }
    }

    /// The session after the analysis ended and cleared what it published.
    pub open spec fn clear_outputs(self) -> Self {
        SessionView { level: ZERO, pitch: PitchView::empty(), ..self }
    }
}

/// A start on a running session answers that the stream is running and
/// changes nothing: no second stream, no second set of resources. So does
/// a start that follows a completed start at once. A stop on an idle
/// session answers that the stream is stopped and changes nothing.
pub proof fn lemma_repeated_calls_change_nothing<H>(s: SessionView<H>, device: Seq<char>, live: H)
    requires
        s.valid(),
    ensures
        s.phase == Phase::Running ==> s.start_answer() == Ok::<StartStep, ErrorView>(
            StartStep::AlreadyRunning,
        ) && s.begin_start() == s,
        s.phase == Phase::Idle ==> ({
            let started = s.begin_start().finish_start(device, live);
            &&& s.start_answer() == Ok::<StartStep, ErrorView>(StartStep::Proceed)
            &&& started.phase == Phase::Running
            &&& started.live == Some(live)
            &&& started.start_answer() == Ok::<StartStep, ErrorView>(StartStep::AlreadyRunning)
            &&& started.begin_start() == started
        }),
        s.phase == Phase::Idle ==> s.begin_stop() == s && s.finish_stop() == s,
{
}

/// Once a stop is completed the level is zero and the estimate is empty,
/// whatever was published while the stream ran; and so it stays until a
/// stream runs again.
pub proof fn lemma_stopped_session_is_silent<H>(s: SessionView<H>, level: u32, pitch: PitchView)
    requires
        s.valid(),
        s.phase == Phase::Running,
    ensures
        s.begin_stop().finish_stop() == SessionView::<H>::idle(),
        s.begin_stop().publish_level(level).publish_pitch(pitch).finish_stop().level == ZERO,
        s.begin_stop().publish_level(level).publish_pitch(pitch).finish_stop().pitch
            == PitchView::empty(),
        SessionView::<H>::idle().publish_level(level).publish_pitch(pitch) == SessionView::<
            H,
        >::idle(),
{
}

/// No call leads out of the valid sessions.
pub proof fn lemma_session_stays_valid<H>(
    s: SessionView<H>,
    device: Seq<char>,
    live: H,
    level: u32,
    pitch: PitchView,
)
    requires
        s.valid(),
    ensures
        SessionView::<H>::idle().valid(),
        s.begin_start().valid(),
        s.finish_start(device, live).valid(),
        s.abort_start().valid(),
        s.begin_stop().valid(),
        s.finish_stop().valid(),
        s.publish_level(level).valid(),
        s.publish_pitch(pitch).valid(),
        s.clear_outputs().valid(),
{
    lemma_clamped_unit(level);
}

/// The session of a process. `H` is what the caller keeps of a running
/// stream.
pub struct Session<H> {
    phase: Phase,
    live: Option<H>,
    current_device: Option<String>,
    level: u32,
    pitch: PitchData,
}

impl<H> View for Session<H> {
    type V = SessionView<H>;

    closed spec fn view(&self) -> SessionView<H> {
        SessionView {
            phase: self.phase,
            live: self.live,
            current_device: match self.current_device {
                Some(d) => Some(d@),
                None => None,
            },
            level: self.level,
            pitch: self.pitch@,
        }
    }
}

impl<H> Session<H> {
    /// A session that has not been started.
    pub fn new() -> (s: Session<H>)
        ensures
            s@ == SessionView::<H>::idle(),
            s@.valid(),
    {
        Session {
            phase: Phase::Idle,
            live: None,
            current_device: None,
            level: ZERO,
            pitch: PitchData::empty(),
        }
    }

    pub fn phase(&self) -> (p: Phase)
        ensures
            p == self@.phase,
    {
        self.phase
    }

    /// The selector of the device that the stream is on, if one is.
    pub fn current_device(&self) -> (d: Option<String>)
        ensures
            match d {
                Some(text) => self@.current_device == Some(text@),
                None => self@.current_device is None,
            },
    {
        match &self.current_device {
            Some(text) => Some(text.clone()),
            None => None,
        }
    }

    /// First call of a start. On an idle session it answers `Proceed` and
    /// the session is starting; on a running session it answers
    /// `AlreadyRunning` and nothing changes. While another start or stop is
    /// under way it fails, and nothing changes.
    pub fn begin_start(&mut self) -> (r: Result<StartStep, AudioError>)
        requires
            old(self)@.valid(),
        ensures
            final(self)@ == old(self)@.begin_start(),
            final(self)@.valid(),
            match old(self)@.start_answer() {
                Ok(step) => r == Ok::<StartStep, AudioError>(step),
                Err(v) => r matches Err(e) && e@ == v,
            },
    {
        match self.phase {
            Phase::Idle => {
                self.phase = Phase::Starting;
                Ok(StartStep::Proceed)
            },
            Phase::Running => Ok(StartStep::AlreadyRunning),
            _ => Err(AudioError::StateLockFailure),
        }
    }

    /// Completes a start: the stream on `device` plays and `live` holds
    /// its resources. The session is running and its estimate is empty.
    /// On a session that is not starting nothing changes and the resources
    /// come back.
    pub fn finish_start(&mut self, device: String, live: H) -> (r: Result<StatusMessage, H>)
        requires
            old(self)@.valid(),
        ensures
            final(self)@ == old(self)@.finish_start(device@, live),
            final(self)@.valid(),
            r == if old(self)@.phase == Phase::Starting {
                Ok::<StatusMessage, H>(StatusMessage::Started)
            } else {
                Err::<StatusMessage, H>(live)
            },
    {
        match self.phase {
            Phase::Starting => {
                self.pitch = PitchData::empty();
                self.current_device = Some(device);
                self.live = Some(live);
                self.phase = Phase::Running;
                Ok(StatusMessage::Started)
            },
            _ => Err(live),
        }
    }

    /// Gives up a start that failed on the device: the session is idle
    /// again. On a session that is not starting nothing changes.
    pub fn abort_start(&mut self)
        requires
            old(self)@.valid(),
        ensures
            final(self)@ == old(self)@.abort_start(),
            final(self)@.valid(),
    {
        match self.phase {
            Phase::Starting => {
                self.phase = Phase::Idle;
            },
            _ => {},
        }
    }

    /// First call of a stop. On a running session it hands out the
    /// stream's resources and the session is stopping; on an idle session
    /// it answers `AlreadyStopped` and nothing changes. While another start
    /// or stop is under way it fails, and nothing changes.
    pub fn begin_stop(&mut self) -> (r: Result<StopStep<H>, AudioError>)
        requires
            old(self)@.valid(),
        ensures
            final(self)@ == old(self)@.begin_stop(),
            final(self)@.valid(),
            match old(self)@.phase {
                Phase::Idle => r == Ok::<StopStep<H>, AudioError>(StopStep::AlreadyStopped),
                Phase::Running => r == Ok::<StopStep<H>, AudioError>(
                    StopStep::Teardown(old(self)@.live->0),
                ),
                _ => r matches Err(e) && e@ == ErrorView::StateLockFailure,
            },
    {
        match self.phase {
            Phase::Idle => Ok(StopStep::AlreadyStopped),
            Phase::Running => {
                let mut taken: Option<H> = None;
                std::mem::swap(&mut self.live, &mut taken);
                self.phase = Phase::Stopping;
                match taken {
                    Some(live) => Ok(StopStep::Teardown(live)),
                    None => Ok(StopStep::AlreadyStopped),
                }
            },
            _ => Err(AudioError::StateLockFailure),
        }
    }

    /// Completes a stop, after the analysis has ended: the session is
    /// idle, its level is zero and its estimate is empty. On a session
    /// that is not stopping it fails, and nothing changes.
    pub fn finish_stop(&mut self) -> (r: Result<StatusMessage, AudioError>)
        requires
            old(self)@.valid(),
        ensures
            final(self)@ == old(self)@.finish_stop(),
            final(self)@.valid(),
            match old(self)@.phase {
                Phase::Stopping => r == Ok::<StatusMessage, AudioError>(StatusMessage::Stopped)
                    && final(self)@ == SessionView::<H>::idle(),
                _ => r matches Err(e) && e@ == ErrorView::StateLockFailure,
            },
    {
        match self.phase {
            Phase::Stopping => {
                self.phase = Phase::Idle;
                self.current_device = None;
                self.level = ZERO;
                self.pitch = PitchData::empty();
                Ok(StatusMessage::Stopped)
            },
            _ => Err(AudioError::StateLockFailure),
        }
    }

    /// Publishes a level, clamped into the unit interval. Ignored unless a
    /// stream is running or stopping.
    pub fn publish_level(&mut self, level: u32)
        requires
            old(self)@.valid(),
        ensures
            final(self)@ == old(self)@.publish_level(level),
            final(self)@.valid(),
    {
        proof {
            lemma_clamped_unit(level);
        }
        match self.phase {
            Phase::Running | Phase::Stopping => {
                self.level = clamp_unit(level);
            },
            _ => {},
        }
    }

    /// Publishes an estimate. One that says nothing leaves the current
    /// estimate in place, and so does any unless a stream is running or
    /// stopping.
    pub fn publish_pitch(&mut self, pitch: PitchData)
        requires
            old(self)@.valid(),
        ensures
            final(self)@ == old(self)@.publish_pitch(pitch@),
            final(self)@.valid(),
    {
        match self.phase {
            Phase::Running | Phase::Stopping => {
                if pitch.is_meaningful() {
                    self.pitch = pitch;
                }
            },
            _ => {},
        }
    }

    /// Sets the level to zero and the estimate to empty, as the analysis
    /// does when it ends.
    pub fn clear_outputs(&mut self)
        requires
            old(self)@.valid(),
        ensures
            final(self)@ == old(self)@.clear_outputs(),
            final(self)@.valid(),
    {
        self.level = ZERO;
        self.pitch = PitchData::empty();
    }

    /// Bit pattern of the current level: a number within 0 and 1, unless
    /// what was published was not a number. Zero while no stream runs.
    pub fn get_input_level(&self) -> (level: u32)
        requires
            self@.valid(),
        ensures
            level == self@.level,
            in_unit_interval(level) || is_nan(level),
            self@.phase == Phase::Idle ==> level == ZERO,
    {
        self.level
    }

    /// A copy of the current estimate. Empty while no stream runs.
    pub fn get_pitch_data(&self) -> (pitch: PitchData)
        requires
            self@.valid(),
        ensures
            pitch@ == self@.pitch,
            self@.phase == Phase::Idle ==> pitch@ == PitchView::empty(),
    {
        self.pitch.clone()
    }
}

impl<H> Default for Session<H> {
    fn default() -> (s: Session<H>)
        ensures
            s@ == SessionView::<H>::idle(),
            s@.valid(),
    {
        Session::new()
    }
}

} // verus!
