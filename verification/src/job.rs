//! Jobs: what to run, where a running job stands, and how it is started and
//! cancelled.
//!
//! A job is either a call made in this process, here the installation of
//! packages, or an external process. Starting one makes its event channel and,
//! for a process, its stop signals. The session keeps the near ends as the job
//! in flight; the far ends go to the program around the library, which puts
//! them to work on threads of their own.

use vstd::prelude::*;
use vstd::string::StringExecFns;
use crate::channel::{receiver_capacity, send_signal, PollView};
use crate::event::{text_view, Stream};
use crate::relay::{relay_step, Relay, RelayAction};
use crate::sink::{event_channel, EventSink};
use crate::worker::{
    shutdown_channels, ExitWatcher, ShutdownSenders, StreamReader, SIGNAL_CAPACITY,
    WORKERS_PER_PROCESS,
};

verus! {

/// An external process to run: the program, its arguments, the variables set
/// over the ambient environment, and the directory to run it in.
#[derive(Debug, PartialEq, Eq)]
pub struct ProcessJob {
    pub program: String,
    pub args: Vec<String>,
    pub env: Vec<(String, String)>,
    pub working_directory: Option<String>,
}

/// The mathematical value of a [`ProcessJob`].
pub struct ProcessJobView {
    pub program: Seq<char>,
    pub args: Seq<Seq<char>>,
    pub env: Seq<(Seq<char>, Seq<char>)>,
    pub working_directory: Option<Seq<char>>,
}

impl View for ProcessJob {
    type V = ProcessJobView;

    open spec fn view(&self) -> ProcessJobView {
        ProcessJobView {
            program: self.program@,
            args: self.args@.map_values(|arg: String| arg@),
            env: self.env@.map_values(|pair: (String, String)| (pair.0@, pair.1@)),
            working_directory: text_view(self.working_directory),
        }
    }
}

/// The job that runs `cmd` through the shell, with the log formatter forced to
/// its default so that output is the same everywhere.
pub open spec fn shell_job(cmd: Seq<char>, working_directory: Option<Seq<char>>) -> ProcessJobView {
    ProcessJobView {
        program: "sh"@,
        args: seq!["-c"@, cmd],
        env: seq![("TEN_LOG_FORMATTER"@, "default"@)],
        working_directory,
    }
}

impl ProcessJob {
    /// The job that runs `cmd` through the shell in `working_directory`.
    pub fn shell(cmd: &str, working_directory: Option<String>) -> (job: ProcessJob)
        ensures
            job@ == shell_job(cmd@, text_view(working_directory)),
    {
        let mut args: Vec<String> = Vec::new();
        args.push(String::from_str("-c"));
        args.push(String::from_str(cmd));
        let mut env: Vec<(String, String)> = Vec::new();
        env.push((String::from_str("TEN_LOG_FORMATTER"), String::from_str("default")));
        let job = ProcessJob { program: String::from_str("sh"), args, env, working_directory };
        proof {
            assert(job@.args =~= seq!["-c"@, cmd@]);
            assert(job@.env =~= seq![("TEN_LOG_FORMATTER"@, "default"@)]);
        }
        job
    }
}

/// How a package that lies on this machine is brought in.
#[derive(Clone, Copy, Debug, PartialEq, Eq, Structural)]
pub enum LocalInstallMode {
    /// Copy its files.
    Copy,
    /// Link to it.
    Link,
}

/// What to install and where.
#[derive(Debug, PartialEq, Eq)]
pub struct InstallCommand {
    /// The kind of package, where one package is asked for.
    pub package_type: Option<String>,
    /// The package's name, with `@` and a version where one is asked for.
    pub package_name: Option<String>,
    pub local_install_mode: LocalInstallMode,
    pub standalone: bool,
    pub local_path: Option<String>,
    /// The directory to install into.
    pub cwd: String,
}

/// The mathematical value of an [`InstallCommand`].
pub struct InstallCommandView {
    pub package_type: Option<Seq<char>>,
    pub package_name: Option<Seq<char>>,
    pub local_install_mode: LocalInstallMode,
    pub standalone: bool,
    pub local_path: Option<Seq<char>>,
    pub cwd: Seq<char>,
}

impl View for InstallCommand {
    type V = InstallCommandView;

    open spec fn view(&self) -> InstallCommandView {
        InstallCommandView {
            package_type: text_view(self.package_type),
            package_name: text_view(self.package_name),
            local_install_mode: self.local_install_mode,
            standalone: self.standalone,
            local_path: text_view(self.local_path),
            cwd: self.cwd@,
        }
    }
}

/// One unit of blocking work to run away from the session's scheduler.
#[derive(Debug, PartialEq, Eq)]
pub enum Job {
    /// A call made in this process: an installation.
    InProcessCall(InstallCommand),
    /// A process of its own.
    ExternalProcess(ProcessJob),
}

/// Where a job stands.
#[derive(Clone, Copy, Debug, PartialEq, Eq, Structural)]
pub enum JobPhase {
    /// The workers are active.
    Running,
    /// The job ended on its own and its exit was relayed.
    Completed,
    /// The session asked for the job to stop.
    Cancelled,
}

/// The phase after a cancellation: a running job is cancelled, and nothing
/// else changes.
pub open spec fn cancel_phase(phase: JobPhase) -> JobPhase {
    match phase {
        JobPhase::Running => JobPhase::Cancelled,
        other => other,
    }
}

/// The phase after a poll: a running job whose drain has ended is completed,
/// and nothing else changes.
pub open spec fn settle_phase(phase: JobPhase, draining: bool) -> JobPhase {
    if phase == JobPhase::Running && !draining {
        JobPhase::Completed
    } else {
        phase
    }
}

/// Cancelling is idempotent: a second cancellation changes nothing, one after
/// completion changes nothing, and no cancellation leaves a job running.
pub proof fn law_cancel_idempotent(phase: JobPhase)
    ensures
        cancel_phase(cancel_phase(phase)) == cancel_phase(phase),
        cancel_phase(phase) != JobPhase::Running,
        phase != JobPhase::Running ==> cancel_phase(phase) == phase,
        cancel_phase(settle_phase(phase, false)) == settle_phase(phase, false),
{
}

/// What the program around the library has to start for a process: the
/// process itself, one reader for each of its output streams, and the watcher.
pub struct Launch {
    pub job: ProcessJob,
    pub stdout: StreamReader,
    pub stderr: StreamReader,
    pub watcher: ExitWatcher,
}

/// What the program around the library has to run on a worker for a call: the
/// command, and the sink through which the worker reports progress and, at the
/// end, the outcome.
pub struct InstallJob {
    pub command: InstallCommand,
    pub sink: EventSink,
}

/// The far ends of a started job.
pub enum Work {
    /// A call to make.
    Call(InstallJob),
    /// A process to spawn.
    Process(Launch),
}

/// The near ends of a started job: the relay that drains its events, the stop
/// signals of its workers where it has any, and where it stands.
pub struct InFlight {
    relay: Relay,
    shutdown_senders: Option<ShutdownSenders>,
    phase: JobPhase,
}

/// Starts an external process: makes the event channel and the stop signals.
pub fn start_process(job: ProcessJob) -> (started: (InFlight, Launch))
    ensures
        started.0.phase() == JobPhase::Running,
        started.0.draining(),
        started.0.armed(),
        started.1.job == job,
        started.1.stdout.stream() == Stream::Normal,
        started.1.stdout.pending() == Seq::<char>::empty(),
        !started.1.stdout.stopped(),
        started.1.stderr.stream() == Stream::Error,
        started.1.stderr.pending() == Seq::<char>::empty(),
        !started.1.stderr.stopped(),
        receiver_capacity(started.1.watcher.stop_end()) == Some(SIGNAL_CAPACITY),
{
    let (senders, receivers) = shutdown_channels();
    let (sink, relay) = event_channel();
    let stdout = StreamReader::new(Stream::Normal, receivers.stdout, sink.fork());
    let stderr = StreamReader::new(Stream::Error, receivers.stderr, sink.fork());
    let watcher = ExitWatcher::new(receivers.wait, sink);
    (
        InFlight { relay, shutdown_senders: Some(senders), phase: JobPhase::Running },
        Launch { job, stdout, stderr, watcher },
    )
}

/// Starts a call: makes the event channel. A call has no stop signals: it
/// runs to its end.
pub fn start_call(command: InstallCommand) -> (started: (InFlight, InstallJob))
    ensures
        started.0.phase() == JobPhase::Running,
        started.0.draining(),
        !started.0.armed(),
        started.1.command == command,
{
    let (sink, relay) = event_channel();
    (InFlight { relay, shutdown_senders: None, phase: JobPhase::Running }, InstallJob {
        command,
        sink,
    })
}

/// Starts `job`, whichever kind it is. The job is running and its relay is
/// draining; what is to be put to work carries the job as it was given.
pub fn start(job: Job) -> (started: (InFlight, Work))
    ensures
        started.0.phase() == JobPhase::Running,
        started.0.draining(),
        match job {
            Job::InProcessCall(command) => {
                &&& !started.0.armed()
                &&& started.1 matches Work::Call(call)
                &&& call.command == command
            },
            Job::ExternalProcess(process) => {
                &&& started.0.armed()
                &&& started.1 matches Work::Process(launch)
                &&& launch.job == process
                &&& launch.stdout.stream() == Stream::Normal
                &&& launch.stderr.stream() == Stream::Error
            },
        },
{
    match job {
        Job::InProcessCall(command) => {
            let (in_flight, call) = start_call(command);
            (in_flight, Work::Call(call))
        },
        Job::ExternalProcess(process) => {
            let (in_flight, launch) = start_process(process);
            (in_flight, Work::Process(launch))
        },
    }
}

impl InFlight {
    /// Where the job stands.
    pub closed spec fn phase(&self) -> JobPhase {
        self.phase
    }

    /// Whether stop signals are still to be sent.
    pub closed spec fn armed(&self) -> bool {
        self.shutdown_senders is Some
    }

    /// Whether the relay has events to expect.
    pub closed spec fn draining(&self) -> bool {
        self.relay.draining()
    }

    /// Where the job stands.
    pub fn current_phase(&self) -> (phase: JobPhase)
        ensures
            phase == self.phase(),
    {
        self.phase
    }

    /// Whether the relay has events to expect.
    pub fn is_draining(&self) -> (draining: bool)
        ensures
            draining == self.draining(),
    {
        self.relay.is_draining()
    }

    /// Polls the event channel once and decides what follows, as the relay
    /// does. A running job whose drain ends with this poll is completed, and
    /// its stop signals are dropped unsent.
    pub fn advance(&mut self) -> (action: RelayAction)
        ensures
            exists|poll: PollView|
                {
                    &&& final(self).draining() == (#[trigger] relay_step(
                        old(self).draining(),
                        poll,
                    )).0
                    &&& action@ == relay_step(old(self).draining(), poll).1
                },
            final(self).phase() == settle_phase(old(self).phase(), final(self).draining()),
            final(self).armed() == (old(self).armed() && final(self).phase() == old(
                self,
            ).phase()),
    {
        let ghost before = self.draining();
        let action = self.relay.advance();
        let ghost poll = choose|poll: PollView|
            {
                &&& self.relay.draining() == (#[trigger] relay_step(before, poll)).0
                &&& action@ == relay_step(before, poll).1
            };
        if self.phase == JobPhase::Running && !self.relay.is_draining() {
            self.phase = JobPhase::Completed;
            self.shutdown_senders = None;
        }
        proof {
            assert(self.draining() == relay_step(before, poll).0);
            assert(action@ == relay_step(before, poll).1);
        }
        action
    }

    /// Cancels the job: sends each worker its stop signal, without waiting,
    /// and lets the signals go. Returns how many signals were taken. A second
    /// call, or one after the job has completed, sends nothing and changes
    /// nothing. The relay goes on draining until the watcher has reported the
    /// exit.
    pub fn cancel(&mut self) -> (signalled: usize)
        ensures
            final(self).phase() == cancel_phase(old(self).phase()),
            !final(self).armed(),
            final(self).draining() == old(self).draining(),
            signalled <= WORKERS_PER_PROCESS,
            !old(self).armed() ==> signalled == 0,
    {
        let mut signalled: usize = 0;
        if let Some(senders) = self.shutdown_senders.take() {
            if send_signal(&senders.stdout) {
                signalled = signalled + 1;
            }
            if send_signal(&senders.stderr) {
                signalled = signalled + 1;
            }
            if send_signal(&senders.wait) {
                signalled = signalled + 1;
            }
        }
        if self.phase == JobPhase::Running {
            self.phase = JobPhase::Cancelled;
        }
        signalled
    }
}

} // verus!
