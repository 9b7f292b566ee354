//! The session that runs a shell command.

use vstd::prelude::*;
use vstd::string::StringExecFns;
use crate::channel::PollView;
use crate::event::{text_view, Stream};
use crate::job::{
    cancel_phase, settle_phase, shell_job, start_process, InFlight, JobPhase, Launch, ProcessJob,
};
use crate::relay::{relay_step, RelayAction, RelayActionView};
use crate::worker::WORKERS_PER_PROCESS;

verus! {

/// The text shown to the user when the process could not be started.
pub open spec fn spawn_failure_text(cause: Seq<char>) -> Seq<char> {
    "Failed to spawn command: "@ + cause
}

/// The phase of an optional job after a cancellation.
pub open spec fn cancel_any(phase: Option<JobPhase>) -> Option<JobPhase> {
    match phase {
        Some(p) => Some(cancel_phase(p)),
        None => None,
    }
}

/// The phase of an optional job after a poll.
pub open spec fn settle_any(phase: Option<JobPhase>, draining: bool) -> Option<JobPhase> {
    match phase {
        Some(p) => Some(settle_phase(p, draining)),
        None => None,
    }
}

/// The session that runs one shell command at a time: it holds the near ends
/// of its job, and nothing of the process itself.
pub struct WsRunCmd {
    working_directory: Option<String>,
    job: Option<InFlight>,
}

impl WsRunCmd {
    /// Where the job stands, if one was started.
    pub closed spec fn phase(&self) -> Option<JobPhase> {
        match self.job {
            Some(job) => Some(job.phase()),
            None => None,
        }
    }

    /// Whether stop signals are still to be sent.
    pub closed spec fn armed(&self) -> bool {
        self.job is Some && self.job->0.armed()
    }

    /// Whether the relay has events to expect.
    pub closed spec fn draining(&self) -> bool {
        self.job is Some && self.job->0.draining()
    }

    /// The directory in which commands are run, if one is set.
    pub closed spec fn directory(&self) -> Option<Seq<char>> {
        text_view(self.working_directory)
    }

    /// A session that has started nothing yet.
    pub fn new(working_directory: Option<String>) -> (session: WsRunCmd)
        ensures
            session.phase() is None,
            !session.armed(),
            !session.draining(),
            session.directory() == text_view(working_directory),
    {
        WsRunCmd { working_directory, job: None }
    }

    /// Where the job stands, if one was started.
    pub fn current_phase(&self) -> (phase: Option<JobPhase>)
        ensures
            phase == self.phase(),
    {
        match &self.job {
            Some(job) => Some(job.current_phase()),
            None => None,
        }
    }

    /// Starts `cmd`: makes the stop signals and the event channel, keeps the
    /// near ends, and returns what is to be spawned. The job runs `cmd`
    /// through the shell in the session's directory. A job that is still
    /// running is cancelled first, so that no process is left behind
    /// unwatched.
    pub fn cmd_run(&mut self, cmd: &String) -> (launch: Launch)
        ensures
            launch.job@ == shell_job(cmd@, old(self).directory()),
            launch.stdout.stream() == Stream::Normal,
            launch.stdout.pending() == Seq::<char>::empty(),
            launch.stderr.stream() == Stream::Error,
            launch.stderr.pending() == Seq::<char>::empty(),
            !launch.stdout.stopped() && !launch.stderr.stopped(),
            final(self).phase() == Some(JobPhase::Running),
            final(self).armed(),
            final(self).draining(),
            final(self).directory() == old(self).directory(),
    {
        self.cleanup_threads();
        let directory = match &self.working_directory {
            Some(dir) => Some(dir.clone()),
            None => None,
        };
        let (in_flight, launch) = start_process(ProcessJob::shell(cmd.as_str(), directory));
        self.job = Some(in_flight);
        launch
    }

    /// Takes back a start that failed: the process could not be spawned, so
    /// there is no job, no signal to send and nothing to drain. Returns the
    /// text to show to the user.
    pub fn spawn_failed(&mut self, cause: &str) -> (text: String)
        ensures
            text@ == spawn_failure_text(cause@),
            final(self).phase() is None,
            !final(self).armed(),
            !final(self).draining(),
            final(self).directory() == old(self).directory(),
    {
        self.job = None;
        String::from_str("Failed to spawn command: ").concat(cause)
    }

    /// Polls the event channel once and decides what follows, as the relay
    /// does. A running job whose drain ends with this poll is completed, and
    /// its stop signals are dropped unsent. With no job there is nothing to
    /// poll.
    pub fn advance(&mut self) -> (action: RelayAction)
        ensures
            exists|poll: PollView|
                {
                    &&& final(self).draining() == (#[trigger] relay_step(
                        old(self).draining(),
                        poll,
                    )).0
                    &&& action@ == relay_step(old(self).draining(), poll).1
                },
            final(self).phase() == settle_any(old(self).phase(), final(self).draining()),
            final(self).armed() == (old(self).armed() && final(self).phase() == old(
                self,
            ).phase()),
            final(self).directory() == old(self).directory(),
            old(self).phase() is None ==> action@ == RelayActionView::Stop,
    {
        let ghost before = self.draining();
        match self.job.take() {
            Some(mut job) => {
                let action = job.advance();
                proof {
                    let poll = choose|poll: PollView|
                        {
                            &&& job.draining() == (#[trigger] relay_step(before, poll)).0
                            &&& action@ == relay_step(before, poll).1
                        };
                    assert(job.draining() == relay_step(before, poll).0);
                }
                self.job = Some(job);
                action
            },
            None => {
                let action = RelayAction::Stop;
                proof {
                    let idle = relay_step(before, PollView::Empty);
                    assert(idle.0 == false && idle.1 == action@);
                }
                action
            },
        }
    }

    /// Cancels the job: sends each worker its stop signal, without waiting.
    /// Returns how many signals were taken. A second call, one after the job
    /// has completed, or one with no job sends nothing and changes nothing.
    /// The relay goes on draining until the watcher has reported the exit.
    pub fn cleanup_threads(&mut self) -> (signalled: usize)
        ensures
            final(self).phase() == cancel_any(old(self).phase()),
            !final(self).armed(),
            final(self).draining() == old(self).draining(),
            final(self).directory() == old(self).directory(),
            signalled <= WORKERS_PER_PROCESS,
            !old(self).armed() ==> signalled == 0,
    {
        match self.job.take() {
            Some(mut job) => {
                let signalled = job.cancel();
                self.job = Some(job);
                signalled
            },
            None => 0,
        }
    }
}

} // verus!
