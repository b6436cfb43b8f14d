//! The interface between the graphics engine and the program that hosts it.
//!
//! An operation that touches the machine is a state machine: it hands out one
//! [`Request`] at a time, the host carries the request out and answers with a
//! [`Reply`], and the operation goes on from there until it is done.

use vstd::prelude::*;

verus! {

/// The kinds of failure that the engine tells apart.
#[derive(Clone, Copy, Debug, PartialEq, Eq, Structural)]
pub enum FailureKind {
    /// What was looked for is not there.
    NotFound,
    /// Any other failure.
    Other,
}

/// A failed operation of the host.
#[derive(Clone, Debug, PartialEq, Eq)]
pub struct IoFailure {
    pub kind: FailureKind,
    pub message: String,
}

/// How a program that the host ran came to its end.
#[derive(Clone, Copy, Debug, PartialEq, Eq)]
pub struct ExitReport {
    pub success: bool,
    pub code: Option<i32>,
}

/// The programs that the engine has the host run.
#[derive(Clone, Copy, Debug, PartialEq, Eq, Structural)]
pub enum Command {
    /// Enable the fallback service.
    EnableFallback,
    /// Disable the fallback service.
    DisableFallback,
    /// Ask whether the alternate generator of the boot image is installed.
    FindDracut,
    /// Rebuild the boot image with the alternate generator.
    Dracut,
    /// Update the boot image with the default generator.
    UpdateInitramfs,
}

impl Command {
    /// The program to run.
    pub open spec fn spec_program(self) -> &'static str {
        match self {
            Command::EnableFallback => "systemctl",
            Command::DisableFallback => "systemctl",
            Command::FindDracut => "command",
            Command::Dracut => "dracut",
            Command::UpdateInitramfs => "update-initramfs",
        }
    }

    /// The arguments to run it with.
    pub open spec fn spec_arguments(self) -> Seq<&'static str> {
        match self {
            Command::EnableFallback => seq!["enable", "nvidia-fallback.service"],
            Command::DisableFallback => seq!["disable", "nvidia-fallback.service"],
            Command::FindDracut => seq!["-v", "dracut"],
            Command::Dracut => seq!["--force"],
            Command::UpdateInitramfs => seq!["-u"],
        }
    }

    /// The name by which an error speaks of the command.
    pub open spec fn spec_label(self) -> &'static str {
        match self {
            Command::EnableFallback => "systemctl",
            Command::DisableFallback => "systemctl",
            Command::FindDracut => "dracut",
            Command::Dracut => "dracut",
            Command::UpdateInitramfs => "update-initramfs",
        }
    }

    /// The program to run.
    pub fn program(self) -> (name: &'static str)
        ensures
            name == self.spec_program(),
    {
        match self {
            Command::EnableFallback => "systemctl",
            Command::DisableFallback => "systemctl",
            Command::FindDracut => "command",
            Command::Dracut => "dracut",
            Command::UpdateInitramfs => "update-initramfs",
        }
    }

    /// The arguments to run it with.
    pub fn arguments(self) -> (arguments: Vec<&'static str>)
        ensures
            arguments@ == self.spec_arguments(),
    {
        let mut arguments: Vec<&'static str> = Vec::new();
        match self {
            Command::EnableFallback => {
                arguments.push("enable");
                arguments.push("nvidia-fallback.service");
            },
            Command::DisableFallback => {
                arguments.push("disable");
                arguments.push("nvidia-fallback.service");
            },
            Command::FindDracut => {
                arguments.push("-v");
                arguments.push("dracut");
            },
            Command::Dracut => {
                arguments.push("--force");
            },
            Command::UpdateInitramfs => {
                arguments.push("-u");
            },
        }
        assert(arguments@ =~= self.spec_arguments());
        arguments
    }

    /// Whether what the program prints is to be thrown away.
    pub fn quiet(self) -> (quiet: bool)
        ensures
            quiet == (self == Command::FindDracut),
    {
        match self {
            Command::FindDracut => true,
            _ => false,
        }
    }

    /// The name by which an error speaks of the command.
    pub fn label(self) -> (name: &'static str)
        ensures
            name == self.spec_label(),
    {
        match self {
            Command::EnableFallback => "systemctl",
            Command::DisableFallback => "systemctl",
            Command::FindDracut => "dracut",
            Command::Dracut => "dracut",
            Command::UpdateInitramfs => "update-initramfs",
        }
    }
}

/// What an operation asks the host to do next.
#[derive(Clone, Debug, PartialEq, Eq)]
pub enum Request {
    /// Tell whether the device path of a PCI function is present.
    ProbePath { function: String },
    /// Look up the driver that a PCI function is bound to.
    LookupDriver { function: String },
    /// Have a driver release a PCI function.
    Unbind { function: String, driver: String },
    /// Remove a PCI function from the bus.
    Remove { function: String },
    /// Rescan the PCI bus.
    Rescan,
    /// Replace what a file holds.
    WriteFile { path: &'static str, contents: &'static str },
    /// Create a file, or empty it, and keep it open for writing.
    CreateFile { path: &'static str },
    /// Write to the file created last and flush it to the disk.
    WriteSynced { path: &'static str, contents: &'static str },
    /// Run a program and wait for its end.
    Run { command: Command },
}

/// What the host answers.
#[derive(Debug, PartialEq, Eq)]
pub enum Reply {
    /// To `ProbePath`: whether the path is present.
    Present(bool),
    /// To `LookupDriver`: the id of the driver, or why none was found.
    Driver(Result<String, IoFailure>),
    /// To `Unbind`, `Remove`, `Rescan`, `WriteFile`, `CreateFile` and
    /// `WriteSynced`: whether it was done.
    Completed(Result<(), IoFailure>),
    /// To `Run`: how the program ended, or why it could not be started.
    Exited(Result<ExitReport, IoFailure>),
}

impl Request {
    /// Whether a reply is of the kind that answers the request.
    pub open spec fn answered_by(self, reply: Reply) -> bool {
        match self {
            Request::ProbePath { .. } => reply is Present,
            Request::LookupDriver { .. } => reply is Driver,
            Request::Run { .. } => reply is Exited,
            _ => reply is Completed,
        }
    }
}

} // verus!
