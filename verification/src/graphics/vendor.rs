//! Switching the vendor mode: which GPU the machine boots with.

use crate::graphics::host::{Command, IoFailure, Reply, Request};
use crate::graphics::{Graphics, GraphicsDeviceError, Step};
use crate::text::{same_text, trim, trimmed};
use vstd::string::StringExecFns;
use vstd::prelude::*;

verus! {

/// The file that holds the persisted mode.
pub const PRIME_DISCRETE_PATH: &'static str = "/etc/prime-discrete";

/// The generated module configuration file.
pub const MODPROBE_PATH: &'static str = "/etc/modprobe.d/system76-power.conf";

/// The module configuration under which the NVIDIA driver loads as usual.
pub const MODPROBE_NVIDIA: &'static str = "# Automatically generated by system76-power\n";

/// The module configuration under which the NVIDIA driver manages the power
/// of the GPU by itself.
pub const MODPROBE_HYBRID: &'static str =
    "# Automatically generated by system76-power\n# http://download.nvidia.com/XFree86/Linux-x86_64/435.17/README/dynamicpowermanagement.html\noptions nvidia NVreg_DynamicPowerManagement=0x02\nblacklist i2c_nvidia_gpu\nalias i2c_nvidia_gpu off\n";

/// The module configuration that keeps every driver of the discrete GPU from
/// loading.
pub const MODPROBE_INTEGRATED: &'static str =
    "# Automatically generated by system76-power\nblacklist i2c_nvidia_gpu\nblacklist nouveau\nblacklist nvidia\nblacklist nvidia-drm\nblacklist nvidia-modeset\nalias i2c_nvidia_gpu off\nalias nouveau off\nalias nvidia off\nalias nvidia-drm off\nalias nvidia-modeset off\n";

/// A vendor mode.
#[derive(Clone, Copy, Debug, PartialEq, Eq, Structural)]
pub enum Vendor {
    /// The discrete GPU drives the display.
    Nvidia,
    /// The integrated GPU drives the display, the discrete one is powered
    /// on demand.
    Hybrid,
    /// The discrete GPU is not used.
    Integrated,
}

impl Vendor {
    /// The mode that a name stands for: any name but `hybrid` and `nvidia`
    /// stands for the integrated mode.
    pub open spec fn named(name: Seq<char>) -> Vendor {
        if name == "hybrid"@ {
            Vendor::Hybrid
        } else if name == "nvidia"@ {
            Vendor::Nvidia
        } else {
            Vendor::Integrated
        }
    }

    /// The mode that a name stands for.
    pub fn from_name(name: &str) -> (vendor: Vendor)
        ensures
            vendor == Vendor::named(name@),
    {
        if same_text(name, "hybrid") {
            Vendor::Hybrid
        } else if same_text(name, "nvidia") {
            Vendor::Nvidia
        } else {
            Vendor::Integrated
        }
    }

    /// The name of the mode.
    pub open spec fn spec_name(self) -> &'static str {
        match self {
            Vendor::Nvidia => "nvidia",
            Vendor::Hybrid => "hybrid",
            Vendor::Integrated => "integrated",
        }
    }

    /// The name of the mode.
    pub fn name(self) -> (name: &'static str)
        ensures
            name == self.spec_name(),
    {
        match self {
            Vendor::Nvidia => "nvidia",
            Vendor::Hybrid => "hybrid",
            Vendor::Integrated => "integrated",
        }
    }

    /// What the mode file holds under the mode.
    pub open spec fn spec_mode(self) -> &'static str {
        match self {
            Vendor::Hybrid => "on-demand\n",
            Vendor::Nvidia => "on\n",
            Vendor::Integrated => "off\n",
        }
    }

    /// What the mode file holds under the mode.
    pub fn mode(self) -> (text: &'static str)
        ensures
            text == self.spec_mode(),
    {
        match self {
            Vendor::Hybrid => "on-demand\n",
            Vendor::Nvidia => "on\n",
            Vendor::Integrated => "off\n",
        }
    }

    /// What the module configuration file holds under the mode.
    pub open spec fn spec_module_config(self) -> &'static str {
        match self {
            Vendor::Hybrid => MODPROBE_HYBRID,
            Vendor::Nvidia => MODPROBE_NVIDIA,
            Vendor::Integrated => MODPROBE_INTEGRATED,
        }
    }

    /// What the module configuration file holds under the mode.
    pub fn module_config(self) -> (text: &'static str)
        ensures
            text == self.spec_module_config(),
    {
        match self {
            Vendor::Hybrid => MODPROBE_HYBRID,
            Vendor::Nvidia => MODPROBE_NVIDIA,
            Vendor::Integrated => MODPROBE_INTEGRATED,
        }
    }

    /// The command that brings the fallback service in line with the mode:
    /// the service runs under the NVIDIA mode only.
    pub open spec fn spec_fallback(self) -> Command {
        if self == Vendor::Nvidia {
            Command::EnableFallback
        } else {
            Command::DisableFallback
        }
    }
}

/// The steps of a switch of the vendor mode, in their order. The last step
/// is one of `RunDracut` and `RunUpdateInitramfs`.
#[derive(Clone, Copy, Debug, PartialEq, Eq, Structural)]
pub enum VendorStage {
    /// Persist the mode in the mode file.
    PersistMode,
    /// Create or empty the module configuration file.
    CreateConfig,
    /// Write the module configuration.
    WriteConfig,
    /// Enable or disable the fallback service.
    ToggleFallback,
    /// Find out which generator of the boot image is installed.
    FindGenerator,
    /// Rebuild the boot image with the alternate generator.
    RunDracut,
    /// Update the boot image with the default generator.
    RunUpdateInitramfs,
}

/// Where a switch of the vendor mode stands.
#[derive(Clone, Copy, Debug, PartialEq, Eq, Structural)]
pub struct VendorCursor {
    pub vendor: Vendor,
    pub stage: VendorStage,
}

impl VendorStage {
    /// The position of the step in the sequence.
    pub open spec fn rank(self) -> int {
        match self {
            VendorStage::PersistMode => 0,
            VendorStage::CreateConfig => 1,
            VendorStage::WriteConfig => 2,
            VendorStage::ToggleFallback => 3,
            VendorStage::FindGenerator => 4,
            VendorStage::RunDracut => 5,
            VendorStage::RunUpdateInitramfs => 5,
        }
    }

    /// The command that the step runs, if it runs one.
    pub open spec fn command(self, vendor: Vendor) -> Option<Command> {
        match self {
            VendorStage::ToggleFallback => Some(vendor.spec_fallback()),
            VendorStage::FindGenerator => Some(Command::FindDracut),
            VendorStage::RunDracut => Some(Command::Dracut),
            VendorStage::RunUpdateInitramfs => Some(Command::UpdateInitramfs),
            _ => None,
        }
    }

    /// The error that the failure of the step surfaces as.
    pub open spec fn failure(self, vendor: Vendor, why: IoFailure) -> GraphicsDeviceError {
        match self {
            VendorStage::PersistMode => GraphicsDeviceError::PrimeModeWrite(why),
            VendorStage::CreateConfig => GraphicsDeviceError::ModprobeFileOpen(why),
            VendorStage::WriteConfig => GraphicsDeviceError::ModprobeFileWrite(why),
            _ => GraphicsDeviceError::Command {
                cmd: self.command(vendor).unwrap().spec_label(),
                why,
            },
        }
    }

    /// Whether the step counts as failed when its command ends without
    /// success.
    pub open spec fn needs_success(self) -> bool {
        self == VendorStage::RunDracut || self == VendorStage::RunUpdateInitramfs
    }

    /// The step that follows when the step did not fail, if any does; `success`
    /// tells how the command of a step ended that runs one.
    pub open spec fn following(self, success: bool) -> Option<VendorStage> {
        match self {
            VendorStage::PersistMode => Some(VendorStage::CreateConfig),
            VendorStage::CreateConfig => Some(VendorStage::WriteConfig),
            VendorStage::WriteConfig => Some(VendorStage::ToggleFallback),
            VendorStage::ToggleFallback => Some(VendorStage::FindGenerator),
            VendorStage::FindGenerator => if success {
                Some(VendorStage::RunDracut)
            } else {
                Some(VendorStage::RunUpdateInitramfs)
            },
            VendorStage::RunDracut => None,
            VendorStage::RunUpdateInitramfs => None,
        }
    }
}

impl VendorCursor {
    /// What the switch asks of the host at the cursor.
    pub open spec fn spec_request(self) -> Request {
        match self.stage {
            VendorStage::PersistMode => Request::WriteFile {
                path: PRIME_DISCRETE_PATH,
                contents: self.vendor.spec_mode(),
            },
            VendorStage::CreateConfig => Request::CreateFile { path: MODPROBE_PATH },
            VendorStage::WriteConfig => Request::WriteSynced {
                path: MODPROBE_PATH,
                contents: self.vendor.spec_module_config(),
            },
            _ => Request::Run { command: self.stage.command(self.vendor).unwrap() },
        }
    }

    /// The switch at a stage, asking what that stage asks.
    pub open spec fn at(vendor: Vendor, stage: VendorStage) -> Step<VendorCursor> {
        let cursor = VendorCursor { vendor, stage };
        Step::Ask(cursor, cursor.spec_request())
    }

    /// The switch after a step that did not fail.
    pub open spec fn proceed(self, success: bool) -> Step<VendorCursor> {
        match self.stage.following(success) {
            Some(stage) => VendorCursor::at(self.vendor, stage),
            None => Step::Done(Ok(())),
        }
    }

    /// Where the switch stands after the host's reply: a failed step ends it
    /// with the error of that step, any other outcome of a step leads to the
    /// step that follows or to the end, and a reply that does not answer
    /// the request leaves the switch where it is.
    pub open spec fn after(self, reply: Reply) -> Step<VendorCursor> {
        match reply {
            Reply::Completed(outcome) if self.stage.command(self.vendor) is None => match outcome {
                Ok(_) => self.proceed(true),
                Err(why) => Step::Done(Err(self.stage.failure(self.vendor, why))),
            },
            Reply::Exited(outcome) if self.stage.command(self.vendor) is Some => match outcome {
                Ok(report) => if self.stage.needs_success() && !report.success {
                    Step::Done(Err(GraphicsDeviceError::UpdateInitramfs(report)))
                } else {
                    self.proceed(report.success)
                },
                Err(why) => Step::Done(Err(self.stage.failure(self.vendor, why))),
            },
            _ => VendorCursor::at(self.vendor, self.stage),
        }
    }

    /// What the switch asks of the host at the cursor.
    pub fn request(self) -> (request: Request)
        ensures
            request == self.spec_request(),
    {
        match self.stage {
            VendorStage::PersistMode => Request::WriteFile {
                path: PRIME_DISCRETE_PATH,
                contents: self.vendor.mode(),
            },
            VendorStage::CreateConfig => Request::CreateFile { path: MODPROBE_PATH },
            VendorStage::WriteConfig => Request::WriteSynced {
                path: MODPROBE_PATH,
                contents: self.vendor.module_config(),
            },
            VendorStage::ToggleFallback => match self.vendor {
                Vendor::Nvidia => Request::Run { command: Command::EnableFallback },
                _ => Request::Run { command: Command::DisableFallback },
            },
            VendorStage::FindGenerator => Request::Run { command: Command::FindDracut },
            VendorStage::RunDracut => Request::Run { command: Command::Dracut },
            VendorStage::RunUpdateInitramfs => Request::Run { command: Command::UpdateInitramfs },
        }
    }

    /// Goes on with the switch from the host's reply to the request of the
    /// cursor.
    pub fn resume(self, reply: Reply) -> (step: Step<VendorCursor>)
        ensures
            step == self.after(reply),
            step matches Step::Ask(next, request) ==> {
                &&& next.vendor == self.vendor
                &&& request == next.spec_request()
                &&& next.stage.rank() == if self.spec_request().answered_by(reply) {
                    self.stage.rank() + 1
                } else {
                    self.stage.rank()
                }
            },
    {
        let vendor: Vendor = self.vendor;
        match (self.stage, reply) {
            (VendorStage::PersistMode, Reply::Completed(Ok(_))) => ask(vendor, VendorStage::CreateConfig),
            (VendorStage::PersistMode, Reply::Completed(Err(why))) => Step::Done(
                Err(GraphicsDeviceError::PrimeModeWrite(why)),
            ),
            (VendorStage::CreateConfig, Reply::Completed(Ok(_))) => ask(vendor, VendorStage::WriteConfig),
            (VendorStage::CreateConfig, Reply::Completed(Err(why))) => Step::Done(
                Err(GraphicsDeviceError::ModprobeFileOpen(why)),
            ),
            (VendorStage::WriteConfig, Reply::Completed(Ok(_))) => ask(vendor, VendorStage::ToggleFallback),
            (VendorStage::WriteConfig, Reply::Completed(Err(why))) => Step::Done(
                Err(GraphicsDeviceError::ModprobeFileWrite(why)),
            ),
            (VendorStage::ToggleFallback, Reply::Exited(Ok(_))) => {
                // The service may be missing: how the command ended is not held against it
                ask(vendor, VendorStage::FindGenerator)
            },
            (VendorStage::ToggleFallback, Reply::Exited(Err(why))) => Step::Done(
                Err(GraphicsDeviceError::Command { cmd: "systemctl", why }),
            ),
            (VendorStage::FindGenerator, Reply::Exited(Ok(report))) => {
                if report.success {
                    ask(vendor, VendorStage::RunDracut)
                } else {
                    ask(vendor, VendorStage::RunUpdateInitramfs)
                }
            },
            (VendorStage::FindGenerator, Reply::Exited(Err(why))) => Step::Done(
                Err(GraphicsDeviceError::Command { cmd: "dracut", why }),
            ),
            (VendorStage::RunDracut, Reply::Exited(Ok(report))) => {
                if report.success {
                    Step::Done(Ok(()))
                } else {
                    Step::Done(Err(GraphicsDeviceError::UpdateInitramfs(report)))
                }
            },
            (VendorStage::RunDracut, Reply::Exited(Err(why))) => Step::Done(
                Err(GraphicsDeviceError::Command { cmd: "dracut", why }),
            ),
            (VendorStage::RunUpdateInitramfs, Reply::Exited(Ok(report))) => {
                if report.success {
                    Step::Done(Ok(()))
                } else {
                    Step::Done(Err(GraphicsDeviceError::UpdateInitramfs(report)))
                }
            },
            (VendorStage::RunUpdateInitramfs, Reply::Exited(Err(why))) => Step::Done(
                Err(GraphicsDeviceError::Command { cmd: "update-initramfs", why }),
            ),
            (stage, _) => ask(vendor, stage),
        }
    }
}

/// The switch at a stage, asking what that stage asks.
fn ask(vendor: Vendor, stage: VendorStage) -> (step: Step<VendorCursor>)
    ensures
        step == VendorCursor::at(vendor, stage),
{
    let cursor: VendorCursor = VendorCursor { vendor, stage };
    Step::Ask(cursor, cursor.request())
}

impl Graphics {
    /// How a switch to the mode named `vendor` begins: it is refused on a
    /// machine that cannot switch, before anything is asked of the host.
    pub open spec fn vendor_start(&self, vendor: Seq<char>) -> Step<VendorCursor> {
        if self.switchable() {
            VendorCursor::at(Vendor::named(vendor), VendorStage::PersistMode)
        } else {
            Step::Done(Err(GraphicsDeviceError::NotSwitchable))
        }
    }

    /// Begins the switch to the vendor mode named `vendor`.
    pub fn set_vendor(&self, vendor: &str) -> (step: Step<VendorCursor>)
        ensures
            step == self.vendor_start(vendor@),
            !self.switchable() ==> step == Step::<VendorCursor>::Done(
                Err(GraphicsDeviceError::NotSwitchable),
            ),
    {
        match self.switchable_or_fail() {
            Err(error) => Step::Done(Err(error)),
            Ok(_) => ask(Vendor::from_name(vendor), VendorStage::PersistMode),
        }
    }
}

/// The cursors at which a switch asks something, beginning at `step`, while
/// the host answers with `replies` in their order: it stops when it is done
/// or the replies are used up.
pub open spec fn switch_trace(step: Step<VendorCursor>, replies: Seq<Reply>) -> Seq<VendorCursor>
    decreases replies.len(),
{
    match step {
        Step::Done(_) => Seq::empty(),
        Step::Ask(cursor, _) => if replies.len() == 0 {
            seq![cursor]
        } else {
            seq![cursor] + switch_trace(cursor.after(replies[0]), replies.drop_first())
        },
    }
}

/// Whatever a switch asks later belongs to no earlier step than what it asks
/// first, and to the same mode.
proof fn lemma_switch_onward(step: Step<VendorCursor>, replies: Seq<Reply>, k: int)
    requires
        0 <= k < switch_trace(step, replies).len(),
    ensures
        step matches Step::Ask(cursor, _) && cursor.stage.rank() <= switch_trace(
            step,
            replies,
        )[k].stage.rank() && cursor.vendor == switch_trace(step, replies)[k].vendor,
    decreases replies.len(),
{
    if let Step::Ask(cursor, _) = step {
        if k > 0 {
            lemma_switch_onward(cursor.after(replies[0]), replies.drop_first(), k - 1);
        }
    }
}

/// A switch takes its steps in their order and keeps to its mode: whatever
/// the host answers, a later request never belongs to an earlier step, nor
/// to another mode.
pub proof fn law_switch_in_order(step: Step<VendorCursor>, replies: Seq<Reply>, i: int, j: int)
    requires
        0 <= i <= j < switch_trace(step, replies).len(),
    ensures
        switch_trace(step, replies)[i].stage.rank() <= switch_trace(step, replies)[j].stage.rank(),
        switch_trace(step, replies)[i].vendor == switch_trace(step, replies)[j].vendor,
    decreases replies.len(),
{
    if let Step::Ask(cursor, _) = step {
        if i == 0 {
            lemma_switch_onward(step, replies, j);
        } else {
            law_switch_in_order(cursor.after(replies[0]), replies.drop_first(), i - 1, j - 1);
        }
    }
}

/// Whether a driver of the discrete GPU is among the loaded kernel modules.
pub open spec fn drives_nvidia(modules: Seq<String>) -> bool {
    exists|i: int|
        0 <= i < modules.len() && ((#[trigger] modules[i])@ == "nouveau"@ || modules[i]@
            == "nvidia"@)
}

/// The vendor mode that a machine is in: integrated where no driver of the
/// discrete GPU is loaded; else hybrid where the mode file could be read and
/// holds `on-demand`, white space at its ends aside; else NVIDIA.
pub open spec fn current_vendor(modules: Seq<String>, mode: Result<String, IoFailure>) -> Vendor {
    if !drives_nvidia(modules) {
        Vendor::Integrated
    } else {
        match mode {
            Ok(text) => if trimmed(text@) == "on-demand"@ {
                Vendor::Hybrid
            } else {
                Vendor::Nvidia
            },
            Err(_) => Vendor::Nvidia,
        }
    }
}

/// The vendor mode that a machine is in, by the names of the loaded kernel
/// modules and by what reading the mode file gave.
pub fn vendor_in_use(modules: &Vec<String>, mode: Result<String, IoFailure>) -> (vendor: Vendor)
    ensures
        vendor == current_vendor(modules@, mode),
{
    let mut found: bool = false;
    let mut i: usize = 0;
    while i < modules.len() && !found
        invariant
            i <= modules.len(),
            found ==> drives_nvidia(modules@),
            !found ==> forall|j: int|
                0 <= j < i ==> !((#[trigger] modules@[j])@ == "nouveau"@ || modules@[j]@
                    == "nvidia"@),
        decreases modules.len() - i,
    {
        let name: &str = modules[i].as_str();
        if same_text(name, "nouveau") || same_text(name, "nvidia") {
            found = true;
        }
        i += 1;
    }
    if !found {
        return Vendor::Integrated;
    }
    match Graphics::get_prime_discrete(mode) {
        Ok(text) => {
            if same_text(text.as_str(), "on-demand") {
                Vendor::Hybrid
            } else {
                Vendor::Nvidia
            }
        },
        Err(_) => Vendor::Nvidia,
    }
}

impl Graphics {
    /// The persisted mode, from what reading the mode file gave: what the
    /// file holds without the white space at its ends.
    pub fn get_prime_discrete(mode: Result<String, IoFailure>) -> (persisted: Result<
        String,
        GraphicsDeviceError,
    >)
        ensures
            match mode {
                Ok(text) => persisted matches Ok(inner) && inner@ == trimmed(text@),
                Err(why) => persisted == Err::<String, GraphicsDeviceError>(
                    GraphicsDeviceError::PrimeModeRead(why),
                ),
            },
    {
        match mode {
            Ok(text) => Ok(String::from_str(trim(text.as_str()))),
            Err(why) => Err(GraphicsDeviceError::PrimeModeRead(why)),
        }
    }

    /// The name of the vendor mode that the machine is in, by what reading
    /// the list of loaded kernel modules and reading the mode file gave.
    pub fn get_vendor(
        &self,
        modules: Result<Vec<String>, IoFailure>,
        mode: Result<String, IoFailure>,
    ) -> (vendor: Result<String, GraphicsDeviceError>)
        ensures
            match modules {
                Ok(names) => vendor matches Ok(name) && name@ == current_vendor(
                    names@,
                    mode,
                ).spec_name()@,
                Err(why) => vendor == Err::<String, GraphicsDeviceError>(
                    GraphicsDeviceError::ModulesFetch(why),
                ),
            },
    {
        match modules {
            Ok(names) => Ok(String::from_str(vendor_in_use(&names, mode).name())),
            Err(why) => Err(GraphicsDeviceError::ModulesFetch(why)),
        }
    }
}

} // verus!
