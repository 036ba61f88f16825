//! One window session from start to close: what is commanded when the window
//! is ready, when the launch ends, when the wait for the port ends, and when
//! the window is closed.
//!
//! The [`Coordinator`] owns the handle of the backend process and keeps two
//! phases, one for the launch and one for the wait. The two tasks report to it
//! in whatever order they finish; neither waits for the other. The caller
//! carries out the [`Command`]s, starts the tasks, and ends the process whose
//! handle [`Coordinator::close_requested`] gives back.

use vstd::prelude::*;
use crate::launch::error_message;
use crate::launch::LaunchError;
use crate::launch::LaunchErrorView;
use crate::status::backend_url;
use crate::status::backend_url_text;
use crate::status::launch_failure_message;
use crate::status::ends_with;
use crate::status::launch_failure_text;
use crate::status::lemma_failure_lines_end_with_remedy;
use crate::status::navigate_script;
use crate::status::navigate_script_text;
use crate::status::probe_timeout_message;
use crate::status::probe_timeout_text;
use crate::status::ready_message;
use crate::status::ready_text;
use crate::status::remedy_text;
use crate::status::starting_message;
use crate::status::starting_text;
use crate::status::status_script;
use crate::status::status_script_text;

verus! {

/// The port on which the backend listens.
pub const PORT: u16 = 8082;

/// Seconds that the port is waited for.
pub const PROBE_TIMEOUT_SECS: u64 = 30;

/// How far the launch of the backend has come.
#[derive(Clone, Copy, Debug, PartialEq, Eq, Structural)]
pub enum LaunchPhase {
    /// The window is not ready yet.
    Idle,
    /// The launch task has been started.
    Launching,
    /// The process runs, and its handle has been stored.
    Launched,
    /// There is no process, and the user has been told why.
    Failed,
}

/// How far the wait for the port has come.
#[derive(Clone, Copy, Debug, PartialEq, Eq, Structural)]
pub enum ProbePhase {
    /// The window is not ready yet.
    Idle,
    /// The probe task has been started.
    Probing,
    /// The port answered, and the page has been sent to the backend.
    Ready,
    /// The port did not answer in time, and the user has been told so.
    Failed,
}

/// Something for the caller to do.
#[derive(Clone, Debug, PartialEq, Eq)]
pub enum Command {
    /// Maximize the main window.
    Maximize,
    /// Show this status line in the page.
    ShowStatus(String),
    /// Start the task that launches the backend for this port.
    StartLaunch { port: u16 },
    /// Start the task that waits for this port, for so many seconds.
    StartProbe { port: u16, timeout_secs: u64 },
    /// Send the page to this address.
    Navigate(String),
}

/// What a [`Command`] says, as text.
pub enum CommandView {
    Maximize,
    ShowStatus(Seq<char>),
    StartLaunch { port: u16 },
    StartProbe { port: u16, timeout_secs: u64 },
    Navigate(Seq<char>),
}

impl View for Command {
    type V = CommandView;

    open spec fn view(&self) -> CommandView {
        match self {
            Command::Maximize => CommandView::Maximize,
            Command::ShowStatus(text) => CommandView::ShowStatus(text@),
            Command::StartLaunch { port } => CommandView::StartLaunch { port: *port },
            Command::StartProbe { port, timeout_secs } => CommandView::StartProbe {
                port: *port,
                timeout_secs: *timeout_secs,
            },
            Command::Navigate(url) => CommandView::Navigate(url@),
        }
    }
}

/// The script that carries a command out in the page, for the commands that
/// the page carries out.
pub open spec fn page_script(command: CommandView) -> Option<Seq<char>> {
    match command {
        CommandView::ShowStatus(text) => Some(status_script_text(text)),
        CommandView::Navigate(url) => Some(navigate_script_text(url)),
        _ => None,
    }
}

impl Command {
    /// Writes the script that carries the command out in the page. A status
    /// line and a new address are the page's to carry out; there is no
    /// script for the other commands.
    pub fn script(&self) -> (script: Option<String>)
        ensures
            match script {
                Some(text) => page_script(self@) == Some(text@),
                None => page_script(self@) is None,
            },
    {
        match self {
            Command::ShowStatus(text) => Some(status_script(text.as_str())),
            Command::Navigate(url) => Some(navigate_script(url.as_str())),
            _ => None,
        }
    }
}

/// What a list of commands says, command by command.
pub open spec fn command_views(commands: Seq<Command>) -> Seq<CommandView> {
    Seq::new(commands.len(), |i: int| commands[i]@)
}

/// The state of a session: the port, the two phases, and the handle of the
/// backend process while the session holds one.
pub struct Session<H> {
    pub port: u16,
    pub launch: LaunchPhase,
    pub probe: ProbePhase,
    pub handle: Option<H>,
}

impl<H> Session<H> {
    /// A session before the window is ready.
    pub open spec fn initial(port: u16) -> Session<H> {
        Session { port, launch: LaunchPhase::Idle, probe: ProbePhase::Idle, handle: None }
    }

    /// What holds of every session: the two tasks are started together, and a
    /// handle is held only after a launch that succeeded.
    pub open spec fn wf(self) -> bool {
        &&& self.launch is Idle <==> self.probe is Idle
        &&& self.handle is Some ==> self.launch is Launched
    }

    /// The session after the window became ready: both tasks are under way.
    /// A session that was started before stays as it is.
    pub open spec fn after_ui_ready(self) -> Session<H> {
        if self.launch is Idle && self.probe is Idle {
            Session { launch: LaunchPhase::Launching, probe: ProbePhase::Probing, ..self }
        } else {
            self
        }
    }

    /// What is commanded when the window becomes ready: the window is
    /// maximized, the user is told that the backend is starting, and the two
    /// tasks are started. Nothing is commanded a second time.
    pub open spec fn ui_ready_commands(self) -> Seq<CommandView> {
        if self.launch is Idle && self.probe is Idle {
            seq![
                CommandView::Maximize,
                CommandView::ShowStatus(starting_text(self.port)),
                CommandView::StartLaunch { port: self.port },
                CommandView::StartProbe { port: self.port, timeout_secs: PROBE_TIMEOUT_SECS },
            ]
        } else {
            Seq::empty()
        }
    }

    /// The session after the launch task reported a running process: the
    /// handle is stored. A session that awaits no launch stays as it is.
    pub open spec fn after_launch_succeeded(self, handle: H) -> Session<H> {
        if self.launch is Launching {
            Session { launch: LaunchPhase::Launched, handle: Some(handle), ..self }
        } else {
            self
        }
    }

    /// The handle that is handed back because the session awaits no launch.
    pub open spec fn refused_handle(self, handle: H) -> Option<H> {
        if self.launch is Launching {
            None
        } else {
            Some(handle)
        }
    }

    /// The session after the launch task reported a failure.
    pub open spec fn after_launch_failed(self) -> Session<H> {
        if self.launch is Launching {
            Session { launch: LaunchPhase::Failed, ..self }
        } else {
            self
        }
    }

    /// What is commanded when the launch fails: the user is told once, in one
    /// line that holds what the error says and what to do about it.
    pub open spec fn launch_failed_commands(self, error: LaunchErrorView) -> Seq<CommandView> {
        if self.launch is Launching {
            seq![CommandView::ShowStatus(launch_failure_text(error_message(error)))]
        } else {
            Seq::empty()
        }
    }

    /// The session after the probe task reported how the wait ended.
    pub open spec fn after_probe_finished(self, ready: bool) -> Session<H> {
        if self.probe is Probing {
            Session {
                probe: if ready {
                    ProbePhase::Ready
                } else {
                    ProbePhase::Failed
                },
                ..self
            }
        } else {
            self
        }
    }

    /// What is commanded when the wait ends: where the port answered, the
    /// user is told and the page is sent to the backend; where it did not,
    /// the user is told what to try, and the page stays.
    pub open spec fn probe_finished_commands(self, ready: bool) -> Seq<CommandView> {
        if !(self.probe is Probing) {
            Seq::empty()
        } else if ready {
            seq![
                CommandView::ShowStatus(ready_text()),
                CommandView::Navigate(backend_url_text(self.port)),
            ]
        } else {
            seq![CommandView::ShowStatus(probe_timeout_text())]
        }
    }

    /// The session after the window was asked to close: it holds no handle.
    pub open spec fn after_close_requested(self) -> Session<H> {
        Session { handle: None, ..self }
    }

    /// The process to end when the window is asked to close: the one whose
    /// handle the session holds, if it holds one.
    pub open spec fn handle_to_kill(self) -> Option<H> {
        self.handle
    }

    /// A new session is well formed, and whatever happens to a well formed
    /// session leaves it so.
    pub proof fn lemma_wf_is_kept(self, port: u16, handle: H, ready: bool)
        ensures
            Self::initial(port).wf(),
            self.wf() ==> self.after_ui_ready().wf(),
            self.wf() ==> self.after_launch_succeeded(handle).wf(),
            self.wf() ==> self.after_launch_failed().wf(),
            self.wf() ==> self.after_probe_finished(ready).wf(),
            self.wf() ==> self.after_close_requested().wf(),
    {
    }

    /// A session is started once: a second notice that the window is ready
    /// commands nothing and changes nothing, and so does any notice that
    /// comes once the launch has left `Idle`. So no task is started twice,
    /// and none is started again after it failed.
    pub proof fn lemma_session_starts_once(self)
        ensures
            self.after_ui_ready().ui_ready_commands() == Seq::<CommandView>::empty(),
            self.after_ui_ready().after_ui_ready() == self.after_ui_ready(),
            !(self.launch is Idle) ==> self.ui_ready_commands() == Seq::<CommandView>::empty()
                && self.after_ui_ready() == self,
    {
    }

    /// Closing twice does no more than closing once: the first request gives
    /// the handle that the session holds, if any, and leaves none; the second
    /// gives none and changes nothing, so no process is ended twice.
    pub proof fn lemma_close_is_idempotent(self)
        ensures
            self.handle_to_kill() == self.handle,
            self.after_close_requested().handle is None,
            self.after_close_requested().handle_to_kill() is None,
            self.after_close_requested().after_close_requested() == self.after_close_requested(),
    {
    }

    /// The handle is stored once: after a launch has been reported, a second
    /// report is handed back and leaves the session as it is.
    pub proof fn lemma_handle_is_stored_once(self, first: H, second: H)
        ensures
            self.after_launch_succeeded(first).after_launch_succeeded(second)
                == self.after_launch_succeeded(first),
            self.after_launch_succeeded(first).refused_handle(second) == Some(second),
    {
    }

    /// The launch and the wait do not depend on each other. In whichever
    /// order the two tasks report, the session ends in the same state and the
    /// same commands are given for each report: what the launch reports
    /// changes nothing of what the end of the wait commands, and the other
    /// way round.
    pub proof fn lemma_tasks_are_independent(
        self,
        handle: H,
        error: LaunchErrorView,
        ready: bool,
    )
        ensures
            self.after_launch_succeeded(handle).after_probe_finished(ready)
                == self.after_probe_finished(ready).after_launch_succeeded(handle),
            self.after_launch_failed().after_probe_finished(ready) == self.after_probe_finished(
                ready,
            ).after_launch_failed(),
            self.after_launch_succeeded(handle).probe_finished_commands(ready)
                == self.probe_finished_commands(ready),
            self.after_launch_failed().probe_finished_commands(ready)
                == self.probe_finished_commands(ready),
            self.after_probe_finished(ready).refused_handle(handle) == self.refused_handle(handle),
            self.after_probe_finished(ready).launch_failed_commands(error)
                == self.launch_failed_commands(error),
    {
    }

    /// Once the port answers, a wait that is under way ends in `Ready` and
    /// the page is sent to the backend, wherever the launch stands: still
    /// under way, done, or failed.
    pub proof fn lemma_probe_reaches_ready(self)
        requires
            self.probe is Probing,
        ensures
            self.after_probe_finished(true).probe is Ready,
            self.after_probe_finished(true).launch == self.launch,
            self.probe_finished_commands(true) == seq![
                CommandView::ShowStatus(ready_text()),
                CommandView::Navigate(backend_url_text(self.port)),
            ],
    {
    }

    /// A failure is told once, in one line, and the line ends with what the
    /// user can do about it: so for a launch that fails, whose line also holds
    /// what the error says, and so for a wait that ends without an answer.
    /// Neither failure sends the page anywhere, and a failure that is
    /// reported a second time is not told again.
    pub proof fn lemma_failures_are_told_once_with_remedy(self, error: LaunchErrorView)
        ensures
            self.launch is Launching ==> self.launch_failed_commands(error) == seq![
                CommandView::ShowStatus(launch_failure_text(error_message(error))),
            ] && ends_with(launch_failure_text(error_message(error)), remedy_text()),
            self.probe is Probing ==> self.probe_finished_commands(false) == seq![
                CommandView::ShowStatus(probe_timeout_text()),
            ] && ends_with(probe_timeout_text(), remedy_text()),
            self.after_launch_failed().launch_failed_commands(error) == Seq::<CommandView>::empty(),
            self.after_probe_finished(false).probe_finished_commands(false) == Seq::<
                CommandView,
            >::empty(),
    {
        lemma_failure_lines_end_with_remedy(error_message(error));
    }

    /// Closing the window touches the handle and nothing else: both phases
    /// stay, and what the tasks report afterwards is taken as before.
    pub proof fn lemma_close_leaves_tasks_alone(self, handle: H, ready: bool)
        ensures
            self.after_close_requested().launch == self.launch,
            self.after_close_requested().probe == self.probe,
            self.after_close_requested().probe_finished_commands(ready)
                == self.probe_finished_commands(ready),
            self.after_close_requested().refused_handle(handle) == self.refused_handle(handle),
    {
    }
}

/// The coordinator of one window session.
pub struct Coordinator<H> {
    port: u16,
    launch: LaunchPhase,
    probe: ProbePhase,
    handle: Option<H>,
}

impl<H> View for Coordinator<H> {
    type V = Session<H>;

    closed spec fn view(&self) -> Session<H> {
        Session { port: self.port, launch: self.launch, probe: self.probe, handle: self.handle }
    }
}

impl<H> Coordinator<H> {
    #[verifier::type_invariant]
    spec fn well_formed(self) -> bool {
        self@.wf()
    }

    /// A coordinator for a session whose backend listens on `port`.
    pub fn new(port: u16) -> (coordinator: Self)
        ensures
            coordinator@ == Session::<H>::initial(port),
            coordinator@.wf(),
    {
        Coordinator { port, launch: LaunchPhase::Idle, probe: ProbePhase::Idle, handle: None }
    }

    /// The port on which the backend listens.
    pub fn port(&self) -> (port: u16)
        ensures
            port == self@.port,
    {
        self.port
    }

    /// How far the launch has come.
    pub fn launch_phase(&self) -> (phase: LaunchPhase)
        ensures
            phase == self@.launch,
    {
        self.launch
    }

    /// How far the wait for the port has come.
    pub fn probe_phase(&self) -> (phase: ProbePhase)
        ensures
            phase == self@.probe,
    {
        self.probe
    }

    /// Whether the handle of a process is held.
    pub fn holds_handle(&self) -> (held: bool)
        ensures
            held == self@.handle is Some,
            self@.wf(),
    {
        proof {
            use_type_invariant(self);
        }
        self.handle.is_some()
    }

    /// The window is ready: starts the session.
    pub fn ui_ready(&mut self) -> (commands: Vec<Command>)
        ensures
            final(self)@ == old(self)@.after_ui_ready(),
            command_views(commands@) == old(self)@.ui_ready_commands(),
            final(self)@.wf(),
    {
        proof {
            use_type_invariant(&*self);
        }
        let mut commands: Vec<Command> = Vec::new();
        if self.launch == LaunchPhase::Idle && self.probe == ProbePhase::Idle {
            *self = Coordinator {
                port: self.port,
                launch: LaunchPhase::Launching,
                probe: ProbePhase::Probing,
                handle: None,
            };
            commands.push(Command::Maximize);
            commands.push(Command::ShowStatus(starting_message(self.port)));
            commands.push(Command::StartLaunch { port: self.port });
            commands.push(
                Command::StartProbe { port: self.port, timeout_secs: PROBE_TIMEOUT_SECS },
            );
        }
        commands
    }

    /// The launch task reports a running process: stores its handle. Where
    /// no launch is awaited the handle is handed back and nothing changes.
    pub fn launch_succeeded(&mut self, handle: H) -> (refused: Option<H>)
        ensures
            final(self)@ == old(self)@.after_launch_succeeded(handle),
            refused == old(self)@.refused_handle(handle),
            final(self)@.wf(),
    {
        proof {
            use_type_invariant(&*self);
        }
        if self.launch == LaunchPhase::Launching {
            self.launch = LaunchPhase::Launched;
            self.handle = Some(handle);
            None
        } else {
            Some(handle)
        }
    }

    /// The launch task reports that there is no process: tells the user.
    pub fn launch_failed(&mut self, error: &LaunchError) -> (commands: Vec<Command>)
        ensures
            final(self)@ == old(self)@.after_launch_failed(),
            command_views(commands@) == old(self)@.launch_failed_commands(error@),
            final(self)@.wf(),
    {
        proof {
            use_type_invariant(&*self);
        }
        let mut commands: Vec<Command> = Vec::new();
        if self.launch == LaunchPhase::Launching {
            self.launch = LaunchPhase::Failed;
            commands.push(Command::ShowStatus(launch_failure_message(error)));
        }
        commands
    }

    /// The probe task reports how the wait ended: tells the user, and sends
    /// the page to the backend where the port answered.
    pub fn probe_finished(&mut self, ready: bool) -> (commands: Vec<Command>)
        ensures
            final(self)@ == old(self)@.after_probe_finished(ready),
            command_views(commands@) == old(self)@.probe_finished_commands(ready),
            final(self)@.wf(),
    {
        proof {
            use_type_invariant(&*self);
        }
        let mut commands: Vec<Command> = Vec::new();
        if self.probe == ProbePhase::Probing {
            if ready {
                self.probe = ProbePhase::Ready;
                commands.push(Command::ShowStatus(ready_message()));
                commands.push(Command::Navigate(backend_url(self.port)));
            } else {
                self.probe = ProbePhase::Failed;
                commands.push(Command::ShowStatus(probe_timeout_message()));
            }
        }
        commands
    }

    /// The window is asked to close: gives up the handle, for the caller to
    /// end the process. Gives nothing where no handle is held.
    pub fn close_requested(&mut self) -> (to_kill: Option<H>)
        ensures
            final(self)@ == old(self)@.after_close_requested(),
            to_kill == old(self)@.handle_to_kill(),
            final(self)@.wf(),
    {
        proof {
            use_type_invariant(&*self);
        }
        let mut to_kill: Option<H> = None;
        std::mem::swap(&mut self.handle, &mut to_kill);
        to_kill
    }
}

} // verus!
