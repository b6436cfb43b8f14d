//! Powering the discrete GPU on and off.
//!
//! The GPU is powered on by a rescan of the bus, which brings its functions
//! back. It is powered off in two passes over the NVIDIA devices: every
//! device is unbound, then every device is removed. A device that fails does
//! not stop a pass: the first failure is kept and returned at the end.

use crate::graphics::device::{DeviceCursor, DeviceOperation, DeviceStage};
use crate::graphics::host::{IoFailure, Reply, Request};
use crate::graphics::vendor::{current_vendor, vendor_in_use, Vendor};
use crate::graphics::{Graphics, GraphicsDeviceError, Step};
use vstd::prelude::*;

verus! {

/// Where a change of the power state stands.
#[derive(Debug, PartialEq, Eq)]
pub enum PowerCursor {
    /// The bus is being rescanned.
    Rescanning,
    /// The NVIDIA device with the index `device` is being unbound or removed,
    /// as `inner` tells; `failure` is the first failure so far.
    Pass { device: usize, inner: DeviceCursor, failure: Option<GraphicsDeviceError> },
}

impl PowerCursor {
    /// The cursor belongs to the pass that removes.
    pub open spec fn removing(self) -> bool {
        self matches PowerCursor::Pass { inner, .. } && inner.operation == DeviceOperation::Remove
    }

    /// The cursor stands where the unbinding of the device with the index
    /// `device` begins.
    pub open spec fn begins_unbind(self, device: int) -> bool {
        self matches PowerCursor::Pass { device: d, inner, .. } && d == device && inner == (
        DeviceCursor {
            operation: DeviceOperation::Unbind,
            function: 0,
            stage: DeviceStage::Probing,
        })
    }
}

/// The first of the failures so far and the failure of one more result.
pub open spec fn first_failure(
    failure: Option<GraphicsDeviceError>,
    result: Result<(), GraphicsDeviceError>,
) -> Option<GraphicsDeviceError> {
    match failure {
        Some(error) => Some(error),
        None => match result {
            Ok(_) => None,
            Err(error) => Some(error),
        },
    }
}

/// The result of the passes: the first failure, if there was one.
pub open spec fn verdict(failure: Option<GraphicsDeviceError>) -> Result<(), GraphicsDeviceError> {
    match failure {
        Some(error) => Err(error),
        None => Ok(()),
    }
}

fn keep_first(failure: Option<GraphicsDeviceError>, result: Result<(), GraphicsDeviceError>) -> (kept:
    Option<GraphicsDeviceError>)
    ensures
        kept == first_failure(failure, result),
{
    match failure {
        Some(error) => Some(error),
        None => match result {
            Ok(_) => None,
            Err(error) => Some(error),
        },
    }
}

fn conclude(failure: Option<GraphicsDeviceError>) -> (result: Result<(), GraphicsDeviceError>)
    ensures
        result == verdict(failure),
{
    match failure {
        Some(error) => Err(error),
        None => Ok(()),
    }
}

impl Graphics {
    /// The index of the first NVIDIA device from `from` on that has
    /// functions, or the number of NVIDIA devices where none has.
    pub open spec fn next_device(&self, from: int) -> int
        decreases self.nvidia@.len() - from,
    {
        if from < 0 || from >= self.nvidia@.len() {
            self.nvidia@.len() as int
        } else if self.nvidia@[from].spec_functions().len() > 0 {
            from
        } else {
            self.next_device(from + 1)
        }
    }

    /// A pass as it begins with the device with the index `device`, which has
    /// functions.
    pub open spec fn pass_at(
        &self,
        operation: DeviceOperation,
        device: int,
        failure: Option<GraphicsDeviceError>,
    ) -> Step<PowerCursor> {
        let inner = DeviceCursor { operation, function: 0, stage: DeviceStage::Probing };
        Step::Ask(
            PowerCursor::Pass { device: device as usize, inner, failure },
            self.nvidia@[device].request_at(inner),
        )
    }

    /// The removing pass from the device with the index `from` on: it turns
    /// to the next device that has functions, and the power-off is done
    /// where there is none.
    pub open spec fn remove_from(&self, from: int, failure: Option<GraphicsDeviceError>) -> Step<
        PowerCursor,
    > {
        if self.next_device(from) < self.nvidia@.len() {
            self.pass_at(DeviceOperation::Remove, self.next_device(from), failure)
        } else {
            Step::Done(verdict(failure))
        }
    }

    /// The unbinding pass from the device with the index `from` on: it turns
    /// to the next device that has functions, and the removing pass begins
    /// where there is none.
    pub open spec fn unbind_from(&self, from: int, failure: Option<GraphicsDeviceError>) -> Step<
        PowerCursor,
    > {
        if self.next_device(from) < self.nvidia@.len() {
            self.pass_at(DeviceOperation::Unbind, self.next_device(from), failure)
        } else {
            self.remove_from(0, failure)
        }
    }

    /// A pass of `operation` from the device with the index `from` on.
    pub open spec fn pass_from(
        &self,
        operation: DeviceOperation,
        from: int,
        failure: Option<GraphicsDeviceError>,
    ) -> Step<PowerCursor> {
        match operation {
            DeviceOperation::Unbind => self.unbind_from(from, failure),
            DeviceOperation::Remove => self.remove_from(from, failure),
        }
    }

    /// How a change of the power state begins. It is refused on a machine
    /// that cannot switch, before anything is asked of the host. Powering on
    /// asks for a rescan of the bus; powering off begins the unbinding pass.
    pub open spec fn power_start(&self, power: bool) -> Step<PowerCursor> {
        if !self.switchable() {
            Step::Done(Err(GraphicsDeviceError::NotSwitchable))
        } else if power {
            Step::Ask(PowerCursor::Rescanning, Request::Rescan)
        } else {
            self.unbind_from(0, None)
        }
    }

    /// Where a change of the power state stands after the host's reply.
    ///
    /// A rescan ends it, with `Rescan` where it failed. In a pass, the
    /// operation on the device at hand goes on; when that operation is
    /// done, its failure is kept unless there was one before, and the pass
    /// goes on with the device after it.
    pub open spec fn power_after(&self, cursor: PowerCursor, reply: Reply) -> Step<PowerCursor> {
        match cursor {
            PowerCursor::Rescanning => match reply {
                Reply::Completed(Ok(_)) => Step::Done(Ok(())),
                Reply::Completed(Err(why)) => Step::Done(Err(GraphicsDeviceError::Rescan(why))),
                _ => Step::Ask(PowerCursor::Rescanning, Request::Rescan),
            },
            PowerCursor::Pass { device, inner, failure } => if device >= self.nvidia@.len() {
                Step::Done(verdict(failure))
            } else {
                match self.nvidia@[device as int].after(inner, reply) {
                    Step::Ask(next, request) => Step::Ask(
                        PowerCursor::Pass { device, inner: next, failure },
                        request,
                    ),
                    Step::Done(result) => self.pass_from(
                        inner.operation,
                        device + 1,
                        first_failure(failure, result),
                    ),
                }
            },
        }
    }

    /// Whether the discrete GPU is powered: whether any NVIDIA device exists.
    /// `existing[i]` tells it of the NVIDIA device with the index `i`.
    /// Refused on a machine that cannot switch.
    pub fn get_power(&self, existing: &Vec<bool>) -> (power: Result<bool, GraphicsDeviceError>)
        ensures
            !self.switchable() ==> power == Err::<bool, GraphicsDeviceError>(
                GraphicsDeviceError::NotSwitchable,
            ),
            self.switchable() ==> power == Ok::<bool, GraphicsDeviceError>(
                self.powered_by(existing@),
            ),
    {
        match self.switchable_or_fail() {
            Err(error) => Err(error),
            Ok(_) => {
                let mut i: usize = 0;
                while i < self.nvidia.len() && i < existing.len()
                    invariant
                        self.switchable(),
                        forall|j: int| 0 <= j < i ==> !existing@[j],
                    decreases existing.len() - i,
                {
                    if existing[i] {
                        return Ok(true);
                    }
                    i += 1;
                }
                Ok(false)
            },
        }
    }

    /// Some NVIDIA device exists.
    pub open spec fn powered_by(&self, existing: Seq<bool>) -> bool {
        exists|i: int| 0 <= i < self.nvidia@.len() && 0 <= i < existing.len() && existing[i]
    }

    fn pass(
        &self,
        operation: DeviceOperation,
        from: usize,
        failure: Option<GraphicsDeviceError>,
    ) -> (step: Step<PowerCursor>)
        ensures
            step == self.pass_from(operation, from as int, failure),
    {
        let mut current: DeviceOperation = operation;
        let mut device: usize = from;
        loop
            invariant
                self.pass_from(operation, from as int, failure) == self.pass_from(
                    current,
                    device as int,
                    failure,
                ),
            decreases
                    (if current == DeviceOperation::Unbind {
                        1int
                    } else {
                        0int
                    }),
                    self.nvidia@.len() - device,
        {
            if device < self.nvidia.len() {
                let begun: Step<DeviceCursor> = match current {
                    DeviceOperation::Unbind => self.nvidia[device].unbind(),
                    DeviceOperation::Remove => self.nvidia[device].remove(),
                };
                match begun {
                    Step::Ask(inner, request) => {
                        proof {
                            self.nvidia@[device as int].lemma_functions_bounded();
                        }
                        return Step::Ask(PowerCursor::Pass { device, inner, failure }, request);
                    },
                    Step::Done(_) => {
                        device += 1;
                    },
                }
            } else {
                match current {
                    DeviceOperation::Unbind => {
                        current = DeviceOperation::Remove;
                        device = 0;
                    },
                    DeviceOperation::Remove => {
                        return Step::Done(conclude(failure));
                    },
                }
            }
        }
    }

    /// Begins to power the discrete GPU on or off.
    pub fn set_power(&self, power: bool) -> (step: Step<PowerCursor>)
        ensures
            step == self.power_start(power),
            !self.switchable() ==> step == Step::<PowerCursor>::Done(
                Err(GraphicsDeviceError::NotSwitchable),
            ),
    {
        match self.switchable_or_fail() {
            Err(error) => Step::Done(Err(error)),
            Ok(_) => {
                if power {
                    Step::Ask(PowerCursor::Rescanning, Request::Rescan)
                } else {
                    self.pass(DeviceOperation::Unbind, 0, None)
                }
            },
        }
    }

    /// Begins to bring the power state in line with the vendor mode that the
    /// machine is in: the discrete GPU is powered unless the mode is the
    /// integrated one.
    pub fn auto_power(
        &self,
        modules: Result<Vec<String>, IoFailure>,
        mode: Result<String, IoFailure>,
    ) -> (step: Step<PowerCursor>)
        ensures
            step == match modules {
                Ok(names) => self.power_start(current_vendor(names@, mode) != Vendor::Integrated),
                Err(why) => Step::Done(Err(GraphicsDeviceError::ModulesFetch(why))),
            },
    {
        match modules {
            Ok(names) => {
                let power: bool = match vendor_in_use(&names, mode) {
                    Vendor::Nvidia => true,
                    Vendor::Hybrid => true,
                    Vendor::Integrated => false,
                };
                self.set_power(power)
            },
            Err(why) => Step::Done(Err(GraphicsDeviceError::ModulesFetch(why))),
        }
    }

    /// Goes on with a change of the power state from the host's reply to the
    /// request of the cursor.
    pub fn resume_power(&self, cursor: PowerCursor, reply: Reply) -> (step: Step<PowerCursor>)
        ensures
            step == self.power_after(cursor, reply),
    {
        match cursor {
            PowerCursor::Rescanning => match reply {
                Reply::Completed(Ok(_)) => Step::Done(Ok(())),
                Reply::Completed(Err(why)) => Step::Done(Err(GraphicsDeviceError::Rescan(why))),
                _ => Step::Ask(PowerCursor::Rescanning, Request::Rescan),
            },
            PowerCursor::Pass { device, inner, failure } => {
                if device >= self.nvidia.len() {
                    return Step::Done(conclude(failure));
                }
                let operation: DeviceOperation = inner.operation;
                match self.nvidia[device].resume(inner, reply) {
                    Step::Ask(next, request) => Step::Ask(
                        PowerCursor::Pass { device, inner: next, failure },
                        request,
                    ),
                    Step::Done(result) => self.pass(
                        operation,
                        device + 1,
                        keep_first(failure, result),
                    ),
                }
            },
        }
    }
}

impl Graphics {
    /// The cursors at which a change of the power state asks something, each
    /// with what it asks, beginning at `step`, while the host answers with
    /// `replies` in their order: it stops when it is done or the replies are
    /// used up.
    pub open spec fn power_trace(&self, step: Step<PowerCursor>, replies: Seq<Reply>) -> Seq<
        (PowerCursor, Request),
    >
        decreases replies.len(),
    {
        match step {
            Step::Done(_) => Seq::empty(),
            Step::Ask(cursor, request) => if replies.len() == 0 {
                seq![(cursor, request)]
            } else {
                seq![(cursor, request)] + self.power_trace(
                    self.power_after(cursor, replies[0]),
                    replies.drop_first(),
                )
            },
        }
    }

    /// How a change of the power state ends that begins at `step` while the
    /// host answers with `replies`: nothing yet where the replies are used up
    /// before.
    pub open spec fn power_outcome(&self, step: Step<PowerCursor>, replies: Seq<Reply>) -> Option<
        Result<(), GraphicsDeviceError>,
    >
        decreases replies.len(),
    {
        match step {
            Step::Done(result) => Some(result),
            Step::Ask(cursor, _) => if replies.len() == 0 {
                None
            } else {
                self.power_outcome(self.power_after(cursor, replies[0]), replies.drop_first())
            },
        }
    }

    /// A step that is done or belongs to the removing pass.
    pub open spec fn past_unbinding(step: Step<PowerCursor>) -> bool {
        step matches Step::Ask(cursor, _) ==> cursor.removing()
    }

    /// A step of the unbinding pass at the device with the index `device`.
    pub open spec fn unbinding_at(&self, step: Step<PowerCursor>, device: int) -> bool {
        step matches Step::Ask(PowerCursor::Pass { device: d, inner, .. }, _) && d == device && d
            < self.nvidia@.len() && inner.operation == DeviceOperation::Unbind
    }

    /// A step of the removing pass leads to the removing pass or to the end.
    proof fn lemma_removing_closed(&self, cursor: PowerCursor, reply: Reply)
        requires
            cursor.removing(),
        ensures
            Self::past_unbinding(self.power_after(cursor, reply)),
    {
        if let PowerCursor::Pass { device, inner, failure } = cursor {
            if device < self.nvidia@.len() {
                self.nvidia@[device as int].lemma_after_step_of(inner, reply);
            }
        }
    }

    /// From the removing pass on, every cursor belongs to the removing pass.
    proof fn lemma_removing_trace(&self, step: Step<PowerCursor>, replies: Seq<Reply>, k: int)
        requires
            Self::past_unbinding(step),
            0 <= k < self.power_trace(step, replies).len(),
        ensures
            self.power_trace(step, replies)[k].0.removing(),
        decreases replies.len(),
    {
        if let Step::Ask(cursor, request) = step {
            if k > 0 {
                self.lemma_removing_closed(cursor, replies[0]);
                self.lemma_removing_trace(
                    self.power_after(cursor, replies[0]),
                    replies.drop_first(),
                    k - 1,
                );
            }
        }
    }

    /// Once the removing pass has begun, nothing is unbound any more:
    /// whatever comes after a cursor of the removing pass belongs to that
    /// pass too.
    pub proof fn law_removing_stays(
        &self,
        step: Step<PowerCursor>,
        replies: Seq<Reply>,
        i: int,
        j: int,
    )
        requires
            0 <= i <= j < self.power_trace(step, replies).len(),
            self.power_trace(step, replies)[i].0.removing(),
        ensures
            self.power_trace(step, replies)[j].0.removing(),
        decreases replies.len(),
    {
        if let Step::Ask(cursor, request) = step {
            if i == 0 {
                self.lemma_removing_trace(step, replies, j);
            } else {
                self.law_removing_stays(
                    self.power_after(cursor, replies[0]),
                    replies.drop_first(),
                    i - 1,
                    j - 1,
                );
            }
        }
    }

    /// The next device that has functions comes no later than any device
    /// that has functions.
    proof fn lemma_next_device(&self, from: int, device: int)
        requires
            0 <= from <= device < self.nvidia@.len(),
            self.nvidia@[device].spec_functions().len() > 0,
        ensures
            from <= self.next_device(from) <= device,
            self.nvidia@[self.next_device(from)].spec_functions().len() > 0,
        decreases device - from,
    {
        if self.nvidia@[from].spec_functions().len() == 0 {
            self.lemma_next_device(from + 1, device);
        }
    }

    /// From a step of the unbinding pass at the device `from`, or from the
    /// beginning of that pass at it, the unbinding of every later device that
    /// has functions is begun before the removing pass.
    proof fn lemma_unbound_before_removing(
        &self,
        step: Step<PowerCursor>,
        from: int,
        replies: Seq<Reply>,
        j: int,
        device: int,
    )
        requires
            self.unbinding_at(step, from) && from < device || exists|
                failure: Option<GraphicsDeviceError>,
            |
                step == self.unbind_from(from, failure) && 0 <= from <= device,
            0 <= device < self.nvidia@.len(),
            self.nvidia@[device].spec_functions().len() > 0,
            0 <= j < self.power_trace(step, replies).len(),
            self.power_trace(step, replies)[j].0.removing(),
        ensures
            exists|i: int| 0 <= i < j && (#[trigger] self.power_trace(step, replies)[i]).0.begins_unbind(device),
        decreases replies.len(), (if self.unbinding_at(step, from) && from < device {
            0int
        } else {
            1int
        }),
    {
        let trace = self.power_trace(step, replies);
        if self.unbinding_at(step, from) && from < device {
            if let Step::Ask(cursor, request) = step {
                if let PowerCursor::Pass { device: d, inner, failure } = cursor {
                    assert(!trace[0].0.removing());
                    assert(j > 0);
                    let reply = replies[0];
                    let rest = replies.drop_first();
                    let next = self.power_after(cursor, reply);
                    let tail = self.power_trace(next, rest);
                    assert(forall|k: int| 0 <= k < tail.len() ==> tail[k] == trace[k + 1]);
                    self.nvidia@[d as int].lemma_after_step_of(inner, reply);
                    match self.nvidia@[d as int].after(inner, reply) {
                        Step::Ask(next_inner, _) => {
                            assert(self.unbinding_at(next, from));
                            self.lemma_unbound_before_removing(next, from, rest, j - 1, device);
                        },
                        Step::Done(result) => {
                            assert(next == self.unbind_from(from + 1, first_failure(failure, result)));
                            self.lemma_unbound_before_removing(next, from + 1, rest, j - 1, device);
                        },
                    }
                    let i = choose|i: int| 0 <= i < j - 1 && (#[trigger] tail[i]).0.begins_unbind(device);
                    assert(trace[i + 1].0.begins_unbind(device));
                }
            }
        } else {
            let failure = choose|failure: Option<GraphicsDeviceError>|
                step == self.unbind_from(from, failure) && 0 <= from <= device;
            self.lemma_next_device(from, device);
            let found = self.next_device(from);
            self.nvidia@[found].lemma_functions_bounded();
            assert(self.nvidia@.len() <= usize::MAX) by {
                let n = self.nvidia.len();
            }
            assert(step == self.pass_at(DeviceOperation::Unbind, found, failure));
            assert(!trace[0].0.removing());
            if found == device {
                assert(trace[0].0.begins_unbind(device));
            } else {
                assert(self.unbinding_at(step, found));
                self.lemma_unbound_before_removing(step, found, replies, j, device);
            }
        }
    }

    /// Powering off attempts to unbind every NVIDIA device before it
    /// attempts to remove any, also where an unbinding failed: when the
    /// removing pass is under way, the unbinding of each device that has
    /// functions was begun before.
    pub proof fn law_unbind_before_remove(&self, replies: Seq<Reply>, j: int, device: int)
        requires
            self.switchable(),
            0 <= j < self.power_trace(self.power_start(false), replies).len(),
            self.power_trace(self.power_start(false), replies)[j].0.removing(),
            0 <= device < self.nvidia@.len(),
            self.nvidia@[device].spec_functions().len() > 0,
        ensures
            exists|i: int|
                0 <= i < j && (#[trigger] self.power_trace(self.power_start(false), replies)[i]).0.begins_unbind(
                    device,
                ),
    {
        let step = self.power_start(false);
        assert(step == self.unbind_from(0, None::<GraphicsDeviceError>));
        self.lemma_unbound_before_removing(step, 0, replies, j, device);
    }

    /// On a machine that cannot switch, a change of the power state or of
    /// the vendor mode ends with `NotSwitchable` at once: nothing is asked of
    /// the host, so no file is touched.
    pub proof fn law_not_switchable(&self, power: bool, vendor: Seq<char>, replies: Seq<Reply>)
        requires
            !self.switchable(),
        ensures
            self.power_start(power) == Step::<PowerCursor>::Done(
                Err(GraphicsDeviceError::NotSwitchable),
            ),
            self.power_trace(self.power_start(power), replies).len() == 0,
            self.vendor_start(vendor) == Step::<crate::graphics::vendor::VendorCursor>::Done(
                Err(GraphicsDeviceError::NotSwitchable),
            ),
    {
    }
}

} // verus!
