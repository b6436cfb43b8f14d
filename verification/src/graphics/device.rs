//! Unbinding and removing the PCI functions of one device.
//!
//! A function is bound to a driver, or present without one, or absent. A
//! driver releases a bound function; only a function without a driver can be
//! removed; a rescan of the bus brings an absent function back.

use crate::graphics::host::{FailureKind, Reply, Request};
use crate::graphics::{GraphicsDevice, GraphicsDeviceError, Step};
use vstd::prelude::*;

verus! {

/// What is being done to the functions of a device.
#[derive(Clone, Copy, Debug, PartialEq, Eq, Structural)]
pub enum DeviceOperation {
    /// Every function is released by its driver.
    Unbind,
    /// Every function is removed from the bus.
    Remove,
}

/// What has been asked about the function at hand.
#[derive(Clone, Debug, PartialEq, Eq)]
pub enum DeviceStage {
    /// Whether its path is present.
    Probing,
    /// Which driver it is bound to.
    LookingUp,
    /// That the driver release it.
    Unbinding { driver: String },
    /// That it be removed.
    Removing,
}

/// Where an operation on a device stands: at the function with the index
/// `function`, waiting for the reply to what `stage` asked.
#[derive(Clone, Debug, PartialEq, Eq)]
pub struct DeviceCursor {
    pub operation: DeviceOperation,
    pub function: usize,
    pub stage: DeviceStage,
}

impl GraphicsDevice {
    /// What the operation asks of the host at the cursor.
    pub open spec fn request_at(&self, cursor: DeviceCursor) -> Request {
        let function = self.spec_functions()[cursor.function as int];
        match cursor.stage {
            DeviceStage::Probing => Request::ProbePath { function },
            DeviceStage::LookingUp => Request::LookupDriver { function },
            DeviceStage::Unbinding { driver } => Request::Unbind { function, driver },
            DeviceStage::Removing => Request::Remove { function },
        }
    }

    /// The operation at a stage of a function, asking what that stage asks.
    pub open spec fn at(
        &self,
        operation: DeviceOperation,
        function: int,
        stage: DeviceStage,
    ) -> Step<DeviceCursor> {
        let cursor = DeviceCursor { operation, function: function as usize, stage };
        Step::Ask(cursor, self.request_at(cursor))
    }

    /// The operation as it turns to the function with the index `function`:
    /// it probes the path of that function, and is done with success where the
    /// device has no such function.
    pub open spec fn enter(&self, operation: DeviceOperation, function: int) -> Step<DeviceCursor> {
        if 0 <= function < self.spec_functions().len() {
            self.at(operation, function, DeviceStage::Probing)
        } else {
            Step::Done(Ok(()))
        }
    }

    /// Where the operation stands after the host's reply.
    ///
    /// An absent function is passed over. Of a present function the driver is
    /// looked up. A bound function is released by its driver when unbinding,
    /// and ends a removal with `DeviceInUse`. A function without a driver (the
    /// lookup found none) is passed over when unbinding, and removed when
    /// removing. Any other failure of the lookup, and a failure to release or
    /// to remove, ends the operation with its error. A reply that does not
    /// answer the request leaves the operation where it is.
    pub open spec fn after(&self, cursor: DeviceCursor, reply: Reply) -> Step<DeviceCursor> {
        let index = cursor.function as int;
        let function = self.spec_functions()[index];
        if index >= self.spec_functions().len() {
            Step::Done(Ok(()))
        } else {
            match (cursor.stage, reply) {
                (DeviceStage::Probing, Reply::Present(present)) => if present {
                    self.at(cursor.operation, index, DeviceStage::LookingUp)
                } else {
                    self.enter(cursor.operation, index + 1)
                },
                (DeviceStage::LookingUp, Reply::Driver(Ok(driver))) => match cursor.operation {
                    DeviceOperation::Unbind => self.at(
                        cursor.operation,
                        index,
                        DeviceStage::Unbinding { driver },
                    ),
                    DeviceOperation::Remove => Step::Done(
                        Err(GraphicsDeviceError::DeviceInUse { func: function, driver }),
                    ),
                },
                (DeviceStage::LookingUp, Reply::Driver(Err(why))) => if why.kind
                    == FailureKind::NotFound {
                    match cursor.operation {
                        DeviceOperation::Unbind => self.enter(cursor.operation, index + 1),
                        DeviceOperation::Remove => self.at(
                            cursor.operation,
                            index,
                            DeviceStage::Removing,
                        ),
                    }
                } else {
                    Step::Done(Err(GraphicsDeviceError::PciDriver { device: self.spec_id(), why }))
                },
                (DeviceStage::Unbinding { driver }, Reply::Completed(outcome)) => match outcome {
                    Ok(_) => self.enter(cursor.operation, index + 1),
                    Err(why) => Step::Done(
                        Err(GraphicsDeviceError::Unbind { func: function, driver, why }),
                    ),
                },
                (DeviceStage::Removing, Reply::Completed(outcome)) => match outcome {
                    Ok(_) => self.enter(cursor.operation, index + 1),
                    Err(why) => Step::Done(
                        Err(GraphicsDeviceError::Remove { device: self.spec_id(), why }),
                    ),
                },
                _ => Step::Ask(cursor, self.request_at(cursor)),
            }
        }
    }

    /// Whether the device exists: whether the path of any of its functions is
    /// present. `present[i]` tells it of the function with the index `i`.
    pub fn is_present(&self, present: &Vec<bool>) -> (found: bool)
        ensures
            found == self.present_by(present@),
    {
        let mut i: usize = 0;
        while i < self.functions.len() && i < present.len()
            invariant
                forall|j: int| 0 <= j < i ==> !present@[j],
            decreases present.len() - i,
        {
            if present[i] {
                return true;
            }
            i += 1;
        }
        false
    }

    /// Some function of the device is present.
    pub open spec fn present_by(&self, present: Seq<bool>) -> bool {
        exists|i: int| 0 <= i < self.spec_functions().len() && 0 <= i < present.len() && present[i]
    }

    fn ask(&self, operation: DeviceOperation, function: usize, stage: DeviceStage) -> (step: Step<
        DeviceCursor,
    >)
        requires
            function < self.spec_functions().len(),
        ensures
            step == self.at(operation, function as int, stage),
    {
        let id: String = self.functions[function].clone();
        let request: Request = match &stage {
            DeviceStage::Probing => Request::ProbePath { function: id },
            DeviceStage::LookingUp => Request::LookupDriver { function: id },
            DeviceStage::Unbinding { driver } => Request::Unbind {
                function: id,
                driver: driver.clone(),
            },
            DeviceStage::Removing => Request::Remove { function: id },
        };
        Step::Ask(DeviceCursor { operation, function, stage }, request)
    }

    fn turn_to(&self, operation: DeviceOperation, function: usize) -> (step: Step<DeviceCursor>)
        ensures
            step == self.enter(operation, function as int),
    {
        if function < self.functions.len() {
            self.ask(operation, function, DeviceStage::Probing)
        } else {
            Step::Done(Ok(()))
        }
    }

    /// Begins to unbind the functions of the device from their drivers.
    ///
    /// Unbinding a function that the kernel is using can disrupt the machine:
    /// this is for callers that know the device to be idle.
    pub fn unbind(&self) -> (step: Step<DeviceCursor>)
        ensures
            step == self.enter(DeviceOperation::Unbind, 0),
    {
        self.turn_to(DeviceOperation::Unbind, 0)
    }

    /// Begins to remove the functions of the device from the bus. No driver
    /// is released on the way: a function that is still bound ends the
    /// removal with `DeviceInUse`.
    pub fn remove(&self) -> (step: Step<DeviceCursor>)
        ensures
            step == self.enter(DeviceOperation::Remove, 0),
    {
        self.turn_to(DeviceOperation::Remove, 0)
    }

    /// Goes on with an operation from the host's reply to the request of
    /// the cursor.
    pub fn resume(&self, cursor: DeviceCursor, reply: Reply) -> (step: Step<DeviceCursor>)
        ensures
            step == self.after(cursor, reply),
    {
        let operation: DeviceOperation = cursor.operation;
        let index: usize = cursor.function;
        if index >= self.functions.len() {
            return Step::Done(Ok(()));
        }
        match (cursor.stage, reply) {
            (DeviceStage::Probing, Reply::Present(present)) => {
                if present {
                    self.ask(operation, index, DeviceStage::LookingUp)
                } else {
                    self.turn_to(operation, index + 1)
                }
            },
            (DeviceStage::LookingUp, Reply::Driver(Ok(driver))) => match operation {
                DeviceOperation::Unbind => self.ask(
                    operation,
                    index,
                    DeviceStage::Unbinding { driver },
                ),
                DeviceOperation::Remove => Step::Done(
                    Err(
                        GraphicsDeviceError::DeviceInUse {
                            func: self.functions[index].clone(),
                            driver,
                        },
                    ),
                ),
            },
            (DeviceStage::LookingUp, Reply::Driver(Err(why))) => match why.kind {
                FailureKind::NotFound => match operation {
                    DeviceOperation::Unbind => self.turn_to(operation, index + 1),
                    DeviceOperation::Remove => self.ask(operation, index, DeviceStage::Removing),
                },
                FailureKind::Other => Step::Done(
                    Err(GraphicsDeviceError::PciDriver { device: self.id.clone(), why }),
                ),
            },
            (DeviceStage::Unbinding { driver }, Reply::Completed(outcome)) => match outcome {
                Ok(_) => self.turn_to(operation, index + 1),
                Err(why) => Step::Done(
                    Err(
                        GraphicsDeviceError::Unbind {
                            func: self.functions[index].clone(),
                            driver,
                            why,
                        },
                    ),
                ),
            },
            (DeviceStage::Removing, Reply::Completed(outcome)) => match outcome {
                Ok(_) => self.turn_to(operation, index + 1),
                Err(why) => Step::Done(
                    Err(GraphicsDeviceError::Remove { device: self.id.clone(), why }),
                ),
            },
            (stage, _) => self.ask(operation, index, stage),
        }
    }
}

impl GraphicsDevice {
    /// The requests that an operation makes, beginning at `step`, while the
    /// host answers with `replies` in their order: it stops when it is done
    /// or the replies are used up.
    pub open spec fn asked(&self, step: Step<DeviceCursor>, replies: Seq<Reply>) -> Seq<Request>
        decreases replies.len(),
    {
        match step {
            Step::Done(_) => Seq::empty(),
            Step::Ask(cursor, request) => if replies.len() == 0 {
                seq![request]
            } else {
                seq![request] + self.asked(self.after(cursor, replies[0]), replies.drop_first())
            },
        }
    }

    /// How an operation ends that begins at `step` while the host answers
    /// with `replies`: nothing yet where the replies are used up before.
    pub open spec fn outcome(&self, step: Step<DeviceCursor>, replies: Seq<Reply>) -> Option<
        Result<(), GraphicsDeviceError>,
    >
        decreases replies.len(),
    {
        match step {
            Step::Done(result) => Some(result),
            Step::Ask(cursor, _) => if replies.len() == 0 {
                None
            } else {
                self.outcome(self.after(cursor, replies[0]), replies.drop_first())
            },
        }
    }

    /// A step of the operation `operation` on this device: done, or asking at
    /// one of the device's functions what the cursor's stage asks.
    pub open spec fn step_of(&self, step: Step<DeviceCursor>, operation: DeviceOperation) -> bool {
        match step {
            Step::Done(_) => true,
            Step::Ask(cursor, request) => {
                &&& cursor.operation == operation
                &&& cursor.function < self.spec_functions().len()
                &&& request == self.request_at(cursor)
            },
        }
    }

    /// Every step of an operation leads to a step of the same operation.
    pub proof fn lemma_after_step_of(&self, cursor: DeviceCursor, reply: Reply)
        ensures
            self.step_of(self.after(cursor, reply), cursor.operation),
    {
    }

    /// Removing a device of which a function is still bound to a driver ends
    /// with `DeviceInUse`, which names that function and the driver, and
    /// nothing more is asked of the host: the functions after it are left
    /// as they are.
    pub proof fn law_remove_in_use(
        &self,
        step: Step<DeviceCursor>,
        replies: Seq<Reply>,
        at: int,
        driver: String,
    )
        requires
            self.step_of(step, DeviceOperation::Remove),
            0 <= at < replies.len(),
            at < self.asked(step, replies).len(),
            self.asked(step, replies)[at] is LookupDriver,
            replies[at] == Reply::Driver(Ok(driver)),
        ensures
            self.outcome(step, replies) == Some(
                Err::<(), GraphicsDeviceError>(
                    GraphicsDeviceError::DeviceInUse {
                        func: self.asked(step, replies)[at]->LookupDriver_function,
                        driver,
                    },
                ),
            ),
            self.asked(step, replies).len() == at + 1,
        decreases at,
    {
        match step {
            Step::Done(_) => {},
            Step::Ask(cursor, request) => {
                let next = self.after(cursor, replies[0]);
                let rest = replies.drop_first();
                self.lemma_after_step_of(cursor, replies[0]);
                if at == 0 {
                    assert(next is Done);
                    assert(self.asked(next, rest) =~= Seq::<Request>::empty());
                } else {
                    assert(self.asked(step, replies)[at] == self.asked(next, rest)[at - 1]);
                    assert(rest[at - 1] == replies[at]);
                    self.law_remove_in_use(next, rest, at - 1, driver);
                }
            },
        }
    }

    /// The probes of the paths of the functions from the index `from` on.
    pub open spec fn probes_from(&self, from: int) -> Seq<Request> {
        Seq::new(
            (self.spec_functions().len() - from) as nat,
            |j: int| Request::ProbePath { function: self.spec_functions()[from + j] },
        )
    }

    /// An operation on a device of which the functions from `from` on are
    /// absent only probes the path of each of them and ends with success.
    pub proof fn lemma_absent_from(&self, operation: DeviceOperation, from: int, replies: Seq<Reply>)
        requires
            0 <= from <= self.spec_functions().len(),
            replies.len() >= self.spec_functions().len() - from,
            forall|j: int|
                0 <= j < self.spec_functions().len() - from ==> replies[j] == Reply::Present(false),
        ensures
            self.asked(self.enter(operation, from), replies) == self.probes_from(from),
            self.outcome(self.enter(operation, from), replies) == Some(
                Ok::<(), GraphicsDeviceError>(()),
            ),
        decreases self.spec_functions().len() - from,
    {
        let step = self.enter(operation, from);
        self.lemma_functions_bounded();
        if from < self.spec_functions().len() {
            let rest = replies.drop_first();
            assert(replies[0] == Reply::Present(false));
            assert(step matches Step::Ask(cursor, _) && self.after(cursor, replies[0]) == self.enter(
                operation,
                from + 1,
            ));
            assert forall|j: int| 0 <= j < self.spec_functions().len() - (from + 1) implies rest[j]
                == Reply::Present(false) by {
                assert(rest[j] == replies[j + 1]);
            }
            self.lemma_absent_from(operation, from + 1, rest);
            assert(self.asked(step, replies) =~= self.probes_from(from));
        } else {
            assert(self.asked(step, replies) =~= self.probes_from(from));
        }
    }

    /// Unbinding or removing a device of which no function is present any
    /// more changes nothing and succeeds: the path of each function is
    /// probed, and nothing else is asked of the host.
    pub proof fn law_absent_is_noop(&self, operation: DeviceOperation, replies: Seq<Reply>)
        requires
            replies.len() >= self.spec_functions().len(),
            forall|j: int| 0 <= j < self.spec_functions().len() ==> replies[j] == Reply::Present(false),
        ensures
            self.outcome(self.enter(operation, 0), replies) == Some(Ok::<(), GraphicsDeviceError>(())),
            self.asked(self.enter(operation, 0), replies).len() == self.spec_functions().len(),
            forall|j: int|
                0 <= j < self.spec_functions().len() ==> self.asked(
                    self.enter(operation, 0),
                    replies,
                )[j] == (Request::ProbePath { function: self.spec_functions()[j] }),
    {
        self.lemma_absent_from(operation, 0, replies);
    }
}

} // verus!
