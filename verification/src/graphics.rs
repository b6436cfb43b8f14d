//! The graphics switching engine: which display devices a machine has, and
//! the steps that switch its discrete GPU on, off, or to another vendor mode.

pub mod device;
pub mod discovery;
pub mod host;
pub mod power;
pub mod vendor;

use crate::graphics::host::{ExitReport, IoFailure, Request};
use vstd::prelude::*;

verus! {

/// What can go wrong in the graphics engine.
#[derive(Debug, PartialEq, Eq)]
pub enum GraphicsDeviceError {
    /// A command could not be run.
    Command { cmd: &'static str, why: IoFailure },
    /// A PCI function cannot be removed while a driver is bound to it.
    DeviceInUse { func: String, driver: String },
    /// The module configuration file could not be opened.
    ModprobeFileOpen(IoFailure),
    /// The module configuration file could not be written.
    ModprobeFileWrite(IoFailure),
    /// The list of loaded kernel modules could not be read.
    ModulesFetch(IoFailure),
    /// The machine has no pair of an integrated and a discrete GPU.
    NotSwitchable,
    /// The driver of a PCI function could not be determined.
    PciDriver { device: String, why: IoFailure },
    /// The mode file could not be read.
    PrimeModeRead(IoFailure),
    /// The mode file could not be written.
    PrimeModeWrite(IoFailure),
    /// A PCI function could not be removed.
    Remove { device: String, why: IoFailure },
    /// The PCI bus could not be rescanned.
    Rescan(IoFailure),
    /// A driver could not release a PCI function.
    Unbind { func: String, driver: String, why: IoFailure },
    /// The boot image could not be regenerated.
    UpdateInitramfs(ExitReport),
    /// The boot image could not be regenerated for want of tools.
    UpdateInitramfsNoTools(ExitReport),
}

/// Where an operation stands: it either asks the host for something, and
/// goes on from the cursor when the host has answered, or it is done.
#[derive(Debug, PartialEq, Eq)]
pub enum Step<C> {
    Ask(C, Request),
    Done(Result<(), GraphicsDeviceError>),
}

/// One logical GPU: the PCI functions that share a slot, by their ids.
#[derive(Clone, Debug, PartialEq, Eq)]
pub struct GraphicsDevice {
    id: String,
    functions: Vec<String>,
}

impl GraphicsDevice {
    /// The id of the device.
    pub closed spec fn spec_id(&self) -> String {
        self.id
    }

    /// The ids of the functions of the device.
    pub closed spec fn spec_functions(&self) -> Seq<String> {
        self.functions@
    }

    /// A device has no more functions than a machine can index.
    pub proof fn lemma_functions_bounded(&self)
        ensures
            self.spec_functions().len() <= usize::MAX,
    {
        let n = self.functions.len();
    }

    /// A device of the given id and functions.
    pub fn new(id: String, functions: Vec<String>) -> (device: GraphicsDevice)
        ensures
            device.spec_id() == id,
            device.spec_functions() == functions@,
    {
        GraphicsDevice { id, functions }
    }

    /// The id of the device.
    pub fn id(&self) -> (id: &String)
        ensures
            *id == self.spec_id(),
    {
        &self.id
    }

    /// The ids of the functions of the device.
    pub fn functions(&self) -> (functions: &Vec<String>)
        ensures
            functions@ == self.spec_functions(),
    {
        &self.functions
    }
}

/// The display devices of a machine, by vendor.
pub struct Graphics {
    pub amd: Vec<GraphicsDevice>,
    pub intel: Vec<GraphicsDevice>,
    pub nvidia: Vec<GraphicsDevice>,
    pub other: Vec<GraphicsDevice>,
}

impl Graphics {
    /// A machine can switch graphics where it has an NVIDIA device and an
    /// Intel or AMD device beside it.
    pub open spec fn switchable(&self) -> bool {
        self.nvidia@.len() > 0 && (self.intel@.len() > 0 || self.amd@.len() > 0)
    }

    /// Whether the machine can switch graphics.
    pub fn can_switch(&self) -> (switchable: bool)
        ensures
            switchable == self.switchable(),
            self.nvidia@.len() == 0 ==> !switchable,
    {
        !(self.nvidia.len() == 0) && (!(self.intel.len() == 0) || !(self.amd.len() == 0))
    }

    /// Success on a machine that can switch graphics, `NotSwitchable` on any
    /// other.
    pub fn switchable_or_fail(&self) -> (outcome: Result<(), GraphicsDeviceError>)
        ensures
            self.switchable() ==> outcome == Ok::<(), GraphicsDeviceError>(()),
            !self.switchable() ==> outcome == Err::<(), GraphicsDeviceError>(
                GraphicsDeviceError::NotSwitchable,
            ),
    {
        if self.can_switch() {
            Ok(())
        } else {
            Err(GraphicsDeviceError::NotSwitchable)
        }
    }
}

} // verus!
