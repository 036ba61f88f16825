//! How the backend process is started: the program, its arguments, and what
//! becomes of its standard streams and its console window.
//!
//! A [`LaunchPlan`] describes the process in full. Starting it is left to the
//! caller, who reports a refusal of the system as [`LaunchError::Spawn`].

use vstd::prelude::*;
use vstd::string::StringExecFns;
use crate::locate::located_backend;
use crate::locate::locate_backend;
use crate::locate::Installation;
use crate::locate::InstallPath;
use crate::locate::JavaBin;
use crate::locate::JavaBinView;
use crate::text::decimal;
use crate::text::push_decimal;

verus! {

/// The process creation flag of Windows that keeps a console program from
/// getting a console window.
pub const CREATE_NO_WINDOW: u32 = 0x0800_0000;

/// Why a launch did not give a running process.
#[derive(Clone, Debug, PartialEq, Eq)]
pub enum LaunchError {
    /// The server archive is at none of the places where it is looked for.
    NotFound,
    /// The system did not start the process; its own words say why.
    Spawn(String),
}

/// What a [`LaunchError`] says, as text.
pub enum LaunchErrorView {
    NotFound,
    Spawn(Seq<char>),
}

impl View for LaunchError {
    type V = LaunchErrorView;

    open spec fn view(&self) -> LaunchErrorView {
        match self {
            LaunchError::NotFound => LaunchErrorView::NotFound,
            LaunchError::Spawn(reason) => LaunchErrorView::Spawn(reason@),
        }
    }
}

/// One argument of the command line.
#[derive(Clone, Debug, PartialEq, Eq)]
pub enum Arg {
    /// Text that is passed as it is.
    Text(String),
    /// A path below the install directory, passed as the system writes it.
    Path(InstallPath),
}

/// What an [`Arg`] says, as text.
pub enum ArgView {
    Text(Seq<char>),
    Path(Seq<Seq<char>>),
}

impl View for Arg {
    type V = ArgView;

    open spec fn view(&self) -> ArgView {
        match self {
            Arg::Text(text) => ArgView::Text(text@),
            Arg::Path(path) => ArgView::Path(path@),
        }
    }
}

/// Where a standard stream of the child goes.
#[derive(Clone, Copy, Debug, PartialEq, Eq, Structural)]
pub enum Stream {
    /// To where the parent's own stream goes.
    Inherit,
    /// To the null device.
    Null,
}

/// The backend process, described in full before it is started.
#[derive(Clone, Debug, PartialEq, Eq)]
pub struct LaunchPlan {
    pub program: JavaBin,
    pub args: Vec<Arg>,
    pub stdin: Stream,
    pub stdout: Stream,
    pub stderr: Stream,
    /// Process creation flags; they mean something on Windows only.
    pub creation_flags: u32,
}

/// What a [`LaunchPlan`] says, as text.
pub struct LaunchPlanView {
    pub program: JavaBinView,
    pub args: Seq<ArgView>,
    pub stdin: Stream,
    pub stdout: Stream,
    pub stderr: Stream,
    pub creation_flags: u32,
}

impl View for LaunchPlan {
    type V = LaunchPlanView;

    open spec fn view(&self) -> LaunchPlanView {
        LaunchPlanView {
            program: self.program@,
            args: Seq::new(self.args@.len(), |i: int| self.args@[i]@),
            stdin: self.stdin,
            stdout: self.stdout,
            stderr: self.stderr,
            creation_flags: self.creation_flags,
        }
    }
}

/// The argument that tells the server its port: `--server.port=` and the
/// port in decimal.
pub open spec fn port_argument(port: u16) -> Seq<char> {
    "--server.port="@ + decimal(port as nat)
}

/// The arguments of the program: `-jar`, the archive, the port.
pub open spec fn launch_arguments(artifact: Seq<Seq<char>>, port: u16) -> Seq<ArgView> {
    seq![ArgView::Text("-jar"@), ArgView::Path(artifact), ArgView::Text(port_argument(port))]
}

/// The plan of a launch on this machine, or why there is none: the archive
/// has to be found; the program is run with `launch_arguments`, all three
/// standard streams go to the null device, and on Windows no console window
/// is made.
pub open spec fn planned_launch(inst: Installation, port: u16) -> Result<
    LaunchPlanView,
    LaunchErrorView,
> {
    match located_backend(inst) {
        Some(location) => Ok(
            LaunchPlanView {
                program: location.runtime,
                args: launch_arguments(location.artifact, port),
                stdin: Stream::Null,
                stdout: Stream::Null,
                stderr: Stream::Null,
                creation_flags: if inst.windows {
                    CREATE_NO_WINDOW
                } else {
                    0
                },
            },
        ),
        None => Err(LaunchErrorView::NotFound),
    }
}

/// What a launch error says to the user.
pub open spec fn error_message(error: LaunchErrorView) -> Seq<char> {
    match error {
        LaunchErrorView::NotFound => "server.jar not found"@,
        LaunchErrorView::Spawn(reason) => reason,
    }
}

/// Writes the argument that tells the server its port.
pub fn port_arg(port: u16) -> (arg: String)
    ensures
        arg@ == port_argument(port),
{
    let mut arg = String::from_str("--server.port=");
    push_decimal(&mut arg, port);
    arg
}

/// Plans the launch of the backend on this machine for the given port.
///
/// Fails with [`LaunchError::NotFound`] exactly where the server archive is at
/// none of its places; no other error comes from here.
pub fn plan_launch(inst: &Installation, port: u16) -> (plan: Result<LaunchPlan, LaunchError>)
    ensures
        match plan {
            Ok(launch) => planned_launch(*inst, port) matches Ok(planned) && planned == launch@,
            Err(error) => planned_launch(*inst, port) matches Err(reason) && reason == error@,
        },
{
    match locate_backend(inst) {
        Some(location) => {
            let ghost artifact = location.artifact@;
            let mut args: Vec<Arg> = Vec::new();
            args.push(Arg::Text(String::from_str("-jar")));
            args.push(Arg::Path(location.artifact));
            args.push(Arg::Text(port_arg(port)));
            let launch = LaunchPlan {
                program: location.runtime,
                args,
                stdin: Stream::Null,
                stdout: Stream::Null,
                stderr: Stream::Null,
                creation_flags: if inst.windows {
                    CREATE_NO_WINDOW
                } else {
                    0
                },
            };
            assert(launch@.args =~= launch_arguments(artifact, port));
            Ok(launch)
        },
        None => Err(LaunchError::NotFound),
    }
}

impl LaunchError {
    /// What the error says to the user.
    pub fn message(&self) -> (text: String)
        ensures
            text@ == error_message(self@),
    {
        match self {
            LaunchError::NotFound => String::from_str("server.jar not found"),
            LaunchError::Spawn(reason) => reason.clone(),
        }
    }
}

} // verus!
