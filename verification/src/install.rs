//! The session that runs package installations.
//!
//! The installation itself is an opaque blocking call that the program around
//! the library makes on a worker. The session builds the command, starts the
//! job, hands the worker its sink and keeps the relay.

use vstd::prelude::*;
use vstd::string::StringExecFns;
use crate::channel::PollView;
use crate::event::text_view;
use crate::job::{
    start_call, InFlight, InstallCommand, InstallCommandView, InstallJob, JobPhase,
    LocalInstallMode,
};
use crate::relay::{relay_step, RelayAction, RelayActionView};

verus! {

/// How a package is named to the installer: its name, then `@` and the
/// version where there is one.
pub open spec fn package_spec(name: Seq<char>, version: Option<Seq<char>>) -> Seq<char> {
    match version {
        Some(v) => name + "@"@ + v,
        None => name,
    }
}

/// The command that installs one package into `base_dir`.
pub open spec fn install_one(
    base_dir: Seq<char>,
    pkg_type: Seq<char>,
    pkg_name: Seq<char>,
    pkg_version: Option<Seq<char>>,
) -> InstallCommandView {
    InstallCommandView {
        package_type: Some(pkg_type),
        package_name: Some(package_spec(pkg_name, pkg_version)),
        local_install_mode: LocalInstallMode::Link,
        standalone: false,
        local_path: None,
        cwd: base_dir,
    }
}

/// The command that installs everything that `base_dir` asks for.
pub open spec fn install_everything(base_dir: Seq<char>) -> InstallCommandView {
    InstallCommandView {
        package_type: None,
        package_name: None,
        local_install_mode: LocalInstallMode::Link,
        standalone: false,
        local_path: None,
        cwd: base_dir,
    }
}

/// The session that runs built-in functions: it holds the near ends of the
/// job in flight.
pub struct WsBuiltinFunction {
    job: Option<InFlight>,
}

/// Starts `install_command` for `session`: makes the event channel, leaves the
/// relay with the session and returns the command with the worker's sink.
pub fn run_installation(session: &mut WsBuiltinFunction, install_command: InstallCommand) -> (job:
    InstallJob)
    ensures
        job.command == install_command,
        final(session).draining(),
        final(session).phase() == Some(JobPhase::Running),
{
    let (in_flight, job) = start_call(install_command);
    session.job = Some(in_flight);
    job
}

impl WsBuiltinFunction {
    /// Whether the relay has events to expect.
    pub closed spec fn draining(&self) -> bool {
        self.job is Some && self.job->0.draining()
    }

    /// Where the job stands, if one was started.
    pub closed spec fn phase(&self) -> Option<JobPhase> {
        match self.job {
            Some(job) => Some(job.phase()),
            None => None,
        }
    }

    /// A session with no job in flight.
    pub fn new() -> (session: WsBuiltinFunction)
        ensures
            !session.draining(),
            session.phase() is None,
    {
        WsBuiltinFunction { job: None }
    }

    /// Where the job stands, if one was started.
    pub fn current_phase(&self) -> (phase: Option<JobPhase>)
        ensures
            phase == self.phase(),
    {
        match &self.job {
            Some(job) => Some(job.current_phase()),
            None => None,
        }
    }

    /// Starts the installation of one package into `base_dir`, linked where it
    /// lies on this machine.
    pub fn install(
        &mut self,
        base_dir: String,
        pkg_type: String,
        pkg_name: String,
        pkg_version: Option<String>,
    ) -> (job: InstallJob)
        ensures
            job.command@ == install_one(base_dir@, pkg_type@, pkg_name@, text_view(pkg_version)),
            final(self).draining(),
            final(self).phase() == Some(JobPhase::Running),
    {
        let pkg_name_and_version = match pkg_version {
            Some(version) => pkg_name.concat("@").concat(version.as_str()),
            None => pkg_name,
        };
        let install_command = InstallCommand {
            package_type: Some(pkg_type),
            package_name: Some(pkg_name_and_version),
            local_install_mode: LocalInstallMode::Link,
            standalone: false,
            local_path: None,
            cwd: base_dir,
        };
        run_installation(self, install_command)
    }

    /// Starts the installation of everything that `base_dir` asks for.
    pub fn install_all(&mut self, base_dir: String) -> (job: InstallJob)
        ensures
            job.command@ == install_everything(base_dir@),
            final(self).draining(),
            final(self).phase() == Some(JobPhase::Running),
    {
        let install_command = InstallCommand {
            package_type: None,
            package_name: None,
            local_install_mode: LocalInstallMode::Link,
            standalone: false,
            local_path: None,
            cwd: base_dir,
        };
        run_installation(self, install_command)
    }

    /// Polls the event channel once and decides what follows, as the relay
    /// does. A running job whose drain ends with this poll is completed. With
    /// no job started there is nothing to poll.
    pub fn advance(&mut self) -> (action: RelayAction)
        ensures
            exists|poll: PollView|
                {
                    &&& final(self).draining() == (#[trigger] relay_step(
                        old(self).draining(),
                        poll,
                    )).0
                    &&& action@ == relay_step(old(self).draining(), poll).1
                },
            final(self).phase() == match old(self).phase() {
                Some(p) => Some(crate::job::settle_phase(p, final(self).draining())),
                None => None,
            },
            old(self).phase() is None ==> action@ == RelayActionView::Stop,
    {
        let ghost before = self.draining();
        match self.job.take() {
            Some(mut job) => {
                let action = job.advance();
                proof {
                    let poll = choose|poll: PollView|
                        {
                            &&& job.draining() == (#[trigger] relay_step(before, poll)).0
                            &&& action@ == relay_step(before, poll).1
                        };
                    assert(job.draining() == relay_step(before, poll).0);
                }
                self.job = Some(job);
                action
            },
            None => {
                let action = RelayAction::Stop;
                proof {
                    let idle = relay_step(before, PollView::Empty);
                    assert(idle.0 == false && idle.1 == action@);
                }
                action
            },
        }
    }
}

} // verus!
