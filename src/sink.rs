use vstd::prelude::*;

use crate::format::FrameFormat;
use crate::process::{LaunchPlan, ProcessStatus, ShutdownPlan};
use crate::settings::{Settings, WAIT_FOR_EXIT_DEFAULT_NS};

verus! {

/// Where the subprocess of the current run cycle stands.
#[derive(Clone, Copy, Debug, PartialEq, Eq, Structural)]
pub enum ProcessPhase {
    /// No subprocess has been started since the last stop.
    Absent,
    /// A subprocess was started and has not been seen to fail.
    Running,
    /// The subprocess exited unexpectedly, or writing to it failed.
    Faulted,
}

/// The states of the sink as the outside world sees them.
#[derive(Clone, Copy, Debug, PartialEq, Eq, Structural)]
pub enum SinkState {
    Idle,
    Negotiated,
    Running,
    Faulted,
}

/// Failures of negotiation and start.
#[derive(Clone, Copy, Debug, PartialEq, Eq, Structural)]
pub enum SinkError {
    /// The offered frame layout could not be accepted.
    FormatRejected,
    /// Start was requested while the command line is empty.
    CommandNotSet,
    /// Start was requested while a subprocess is still attached.
    AlreadyRunning,
    /// The operating system could not create the subprocess.
    SpawnFailed,
}

/// Failures of frame delivery.
#[derive(Clone, Copy, Debug, PartialEq, Eq, Structural)]
pub enum FlowError {
    /// No frame layout has been accepted.
    NotNegotiated,
    /// Fatal: no subprocess, it has exited, or it could not be written to.
    Error,
}

/// The abstract state of a sink.
pub struct SinkModel {
    pub cmd: Seq<char>,
    pub wait_for_exit: u64,
    pub format: Option<FrameFormat>,
    pub phase: ProcessPhase,
    /// Every byte handed to the current subprocess, in order.
    pub delivered: Seq<u8>,
}

impl SinkModel {
    /// The idle state under the given configuration.
    pub open spec fn idle(cmd: Seq<char>, wait_for_exit: u64) -> SinkModel {
        SinkModel { cmd, wait_for_exit, format: None, phase: ProcessPhase::Absent, delivered: seq![] }
    }

    pub open spec fn state(self) -> SinkState {
        match self.phase {
            ProcessPhase::Absent => if self.format is Some {
                SinkState::Negotiated
            } else {
                SinkState::Idle
            },
            ProcessPhase::Running => SinkState::Running,
            ProcessPhase::Faulted => SinkState::Faulted,
        }
    }

    pub open spec fn has_process(self) -> bool {
        !(self.phase is Absent)
    }

    /// Negotiation: a valid layout is recorded, anything else is refused.
    pub open spec fn negotiate(self, offered: Option<FrameFormat>) -> (SinkModel, Result<(), SinkError>) {
        match offered {
            Some(f) => if f.valid() {
                (SinkModel { format: Some(f), ..self }, Ok(()))
            } else {
                (self, Err(SinkError::FormatRejected))
            },
            None => (self, Err(SinkError::FormatRejected)),
        }
    }

    /// The command line that start would launch, or why it will not.
    pub open spec fn launch(self) -> Result<Seq<char>, SinkError> {
        if self.cmd.len() == 0 {
            Err(SinkError::CommandNotSet)
        } else if self.has_process() {
            Err(SinkError::AlreadyRunning)
        } else {
            Ok(self.cmd)
        }
    }

    /// The outcome of launching: a fresh subprocess starts with nothing
    /// delivered to it; a failed launch changes nothing.
    pub open spec fn started(self, spawned: bool) -> (SinkModel, Result<(), SinkError>) {
        match self.launch() {
            Err(e) => (self, Err(e)),
            Ok(_) => if spawned {
                (SinkModel { phase: ProcessPhase::Running, delivered: seq![], ..self }, Ok(()))
            } else {
                (self, Err(SinkError::SpawnFailed))
            },
        }
    }

    /// Whether a frame may be delivered at all, before the subprocess is
    /// asked anything.
    pub open spec fn may_render(self) -> Result<(), FlowError> {
        if self.format is None {
            Err(FlowError::NotNegotiated)
        } else if self.phase is Running {
            Ok(())
        } else {
            Err(FlowError::Error)
        }
    }

    pub open spec fn faulted(self) -> SinkModel {
        SinkModel { phase: ProcessPhase::Faulted, ..self }
    }

    /// The answer of the liveness query: a subprocess that is gone, or
    /// that cannot be asked, faults the sink.
    pub open spec fn observed(self, status: ProcessStatus) -> (SinkModel, Result<(), FlowError>) {
        match self.may_render() {
            Err(e) => (self, Err(e)),
            Ok(_) => if status.is_alive() {
                (self, Ok(()))
            } else {
                (self.faulted(), Err(FlowError::Error))
            },
        }
    }

    /// The outcome of writing one whole frame to the subprocess's input.
    pub open spec fn written(self, frame: Seq<u8>, ok: bool) -> (SinkModel, Result<(), FlowError>) {
        match self.may_render() {
            Err(e) => (self, Err(e)),
            Ok(_) => if ok {
                (SinkModel { delivered: self.delivered + frame, ..self }, Ok(()))
            } else {
                (self.faulted(), Err(FlowError::Error))
            },
        }
    }

    /// A render call from end to end: whether frames are taken, the liveness
    /// query and the write, in this order, stopping at the first failure.
    pub open spec fn render(self, status: ProcessStatus, frame: Seq<u8>, write_ok: bool) -> (SinkModel, Result<(), FlowError>) {
        let (s1, r1) = self.observed(status);
        match r1 {
            Err(e) => (s1, Err(e)),
            Ok(_) => s1.written(frame, write_ok),
        }
    }

    /// Stop: with a subprocess attached, shut it down after the configured
    /// grace period and return to idle; without one, do nothing.
    pub open spec fn stop(self) -> (SinkModel, Option<u64>) {
        if self.has_process() {
            (SinkModel::idle(self.cmd, self.wait_for_exit), Some(self.wait_for_exit))
        } else {
            (self, None)
        }
    }
}

/// A sink that forwards raw frames to the standard input of a shell command.
///
/// The sink decides; its driver acts. The driver launches the process that
/// [`VideoPipeSink::start`] describes and reports back through
/// [`VideoPipeSink::process_started`]; for each frame it asks
/// [`VideoPipeSink::may_render`], queries the subprocess and reports
/// through [`VideoPipeSink::observe_status`], writes and flushes the frame
/// and reports through [`VideoPipeSink::frame_written`]; and it carries out
/// the plan that [`VideoPipeSink::stop`] returns.
pub struct VideoPipeSink {
    settings: Settings,
    format: Option<FrameFormat>,
    phase: ProcessPhase,
    bytes_written: u64,
    delivered: Ghost<Seq<u8>>,
}

/// `n` as a `u64`, or `u64::MAX` where it does not fit.
pub open spec fn saturated(n: nat) -> u64 {
    if n > u64::MAX {
        u64::MAX
    } else {
        n as u64
    }
}

impl View for VideoPipeSink {
    type V = SinkModel;

    closed spec fn view(&self) -> SinkModel {
        SinkModel {
            cmd: self.settings.cmd@,
            wait_for_exit: self.settings.wait_for_exit,
            format: self.format,
            phase: self.phase,
            delivered: self.delivered@,
        }
    }
}

impl VideoPipeSink {
    /// The byte counter follows the delivered bytes, and a recorded layout
    /// is a valid one.
    pub closed spec fn wf(&self) -> bool {
        &&& self.bytes_written == saturated(self.delivered@.len())
        &&& (self.format matches Some(f) ==> f.valid())
    }

    pub fn new() -> (r: VideoPipeSink)
        ensures
            r.wf(),
            r@ == SinkModel::idle(seq![], WAIT_FOR_EXIT_DEFAULT_NS),
    {
        VideoPipeSink::with_settings(Settings::default())
    }

    pub fn with_settings(settings: Settings) -> (r: VideoPipeSink)
        ensures
            r.wf(),
            r@ == SinkModel::idle(settings.cmd@, settings.wait_for_exit),
    {
        VideoPipeSink {
            settings,
            format: None,
            phase: ProcessPhase::Absent,
            bytes_written: 0,
            delivered: Ghost(Seq::empty()),
        }
    }

    pub fn state(&self) -> (r: SinkState)
        ensures
            r == self@.state(),
    {
        match self.phase {
            ProcessPhase::Absent => if self.format.is_some() {
                SinkState::Negotiated
            } else {
                SinkState::Idle
            },
            ProcessPhase::Running => SinkState::Running,
            ProcessPhase::Faulted => SinkState::Faulted,
        }
    }

    fn has_process(&self) -> (r: bool)
        ensures
            r == self@.has_process(),
    {
        match self.phase {
            ProcessPhase::Absent => false,
            _ => true,
        }
    }

    /// Records the frame layout that negotiation settled on; `None` stands
    /// for a description that could not be parsed.
    pub fn set_caps(&mut self, offered: Option<FrameFormat>) -> (r: Result<(), SinkError>)
        requires
            old(self).wf(),
        ensures
            final(self).wf(),
            (final(self)@, r) == old(self)@.negotiate(offered),
    {
        match offered {
            Some(f) => if f.is_valid() {
                self.format = Some(f);
                Ok(())
            } else {
                Err(SinkError::FormatRejected)
            },
            None => Err(SinkError::FormatRejected),
        }
    }

    /// What to launch for a new run cycle. Nothing changes until the
    /// outcome is reported to [`VideoPipeSink::process_started`].
    pub fn start(&self) -> (r: Result<LaunchPlan, SinkError>)
        ensures
            match r {
                Ok(plan) => self@.launch() == Ok::<Seq<char>, SinkError>(self@.cmd) && plan.runs(self@.cmd),
                Err(e) => self@.launch() == Err::<Seq<char>, SinkError>(e),
            },
    {
        if self.settings.cmd.as_str().is_empty() {
            Err(SinkError::CommandNotSet)
        } else if self.has_process() {
            Err(SinkError::AlreadyRunning)
        } else {
            Ok(LaunchPlan::shell(self.settings.cmd.as_str()))
        }
    }

    /// Takes in whether the subprocess that [`VideoPipeSink::start`]
    /// described could be created.
    pub fn process_started(&mut self, spawned: bool) -> (r: Result<(), SinkError>)
        requires
            old(self).wf(),
        ensures
            final(self).wf(),
            (final(self)@, r) == old(self)@.started(spawned),
    {
        if self.settings.cmd.as_str().is_empty() {
            Err(SinkError::CommandNotSet)
        } else if self.has_process() {
            Err(SinkError::AlreadyRunning)
        } else if spawned {
            self.phase = ProcessPhase::Running;
            self.bytes_written = 0;
            self.delivered = Ghost(Seq::empty());
            Ok(())
        } else {
            Err(SinkError::SpawnFailed)
        }
    }

    /// The first stage of a render call: whether the subprocess is to be
    /// queried at all. A faulted sink fails here without touching it.
    pub fn may_render(&self) -> (r: Result<(), FlowError>)
        ensures
            r == self@.may_render(),
    {
        if self.format.is_none() {
            Err(FlowError::NotNegotiated)
        } else {
            match self.phase {
                ProcessPhase::Running => Ok(()),
                _ => Err(FlowError::Error),
            }
        }
    }

    /// The second stage of a render call: takes in the answer of the
    /// non-blocking liveness query.
    pub fn observe_status(&mut self, status: ProcessStatus) -> (r: Result<(), FlowError>)
        requires
            old(self).wf(),
        ensures
            final(self).wf(),
            (final(self)@, r) == old(self)@.observed(status),
    {
        let verdict = self.may_render();
        match verdict {
            Err(e) => Err(e),
            Ok(()) => match status {
                ProcessStatus::Running => Ok(()),
                _ => {
                    self.phase = ProcessPhase::Faulted;
                    Err(FlowError::Error)
                },
            },
        }
    }

    /// The last stage of a render call: takes in whether `frame` was
    /// written whole to the subprocess's input and flushed.
    pub fn frame_written(&mut self, frame: &[u8], written: bool) -> (r: Result<(), FlowError>)
        requires
            old(self).wf(),
        ensures
            final(self).wf(),
            (final(self)@, r) == old(self)@.written(frame@, written),
    {
        let verdict = self.may_render();
        match verdict {
            Err(e) => Err(e),
            Ok(()) => if written {
                let len = frame.len() as u64;
                self.bytes_written = self.bytes_written.saturating_add(len);
                self.delivered = Ghost(self.delivered@ + frame@);
                Ok(())
            } else {
                self.phase = ProcessPhase::Faulted;
                Err(FlowError::Error)
            },
        }
    }

    /// The command line launched by the next start.
    pub fn cmd(&self) -> (r: &str)
        ensures
            r@ == self@.cmd,
    {
        self.settings.cmd.as_str()
    }

    /// Sets the command line; a subprocess already running keeps the one it
    /// was started with.
    pub fn set_cmd(&mut self, cmd: String)
        requires
            old(self).wf(),
        ensures
            final(self).wf(),
            final(self)@ == (SinkModel { cmd: cmd@, ..old(self)@ }),
    {
        self.settings.cmd = cmd;
    }

    pub fn wait_for_exit(&self) -> (r: u64)
        ensures
            r == self@.wait_for_exit,
    {
        self.settings.wait_for_exit
    }

    /// Sets the grace period in nanoseconds; it is read when stop is called.
    pub fn set_wait_for_exit(&mut self, ns: u64)
        requires
            old(self).wf(),
        ensures
            final(self).wf(),
            final(self)@ == (SinkModel { wait_for_exit: ns, ..old(self)@ }),
    {
        self.settings.wait_for_exit = ns;
    }

    /// The accepted frame layout, if any.
    pub fn format(&self) -> (r: Option<FrameFormat>)
        ensures
            r == self@.format,
    {
        self.format
    }

    /// Bytes handed to the current subprocess so far, saturating at
    /// `u64::MAX`.
    pub fn bytes_written(&self) -> (r: u64)
        requires
            self.wf(),
        ensures
            r == saturated(self@.delivered.len()),
    {
        self.bytes_written
    }

    /// Detaches the subprocess and returns to idle, handing back how to
    /// shut it down; with no subprocess attached, does nothing.
    pub fn stop(&mut self) -> (r: Option<ShutdownPlan>)
        requires
            old(self).wf(),
        ensures
            final(self).wf(),
            final(self)@ == old(self)@.stop().0,
            match r {
                Some(plan) => old(self)@.stop().1 == Some(plan.exit_wait_ns),
                None => old(self)@.stop().1 is None,
            },
    {
        if self.has_process() {
            self.format = None;
            self.phase = ProcessPhase::Absent;
            self.bytes_written = 0;
            self.delivered = Ghost(Seq::empty());
            Some(ShutdownPlan { exit_wait_ns: self.settings.wait_for_exit })
        } else {
            None
        }
    }
}

} // verus!
