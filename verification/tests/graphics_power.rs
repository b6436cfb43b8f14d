use system76_power::graphics::device::{DeviceCursor, DeviceOperation, DeviceStage};
use system76_power::graphics::host::{FailureKind, IoFailure, Reply, Request};
use system76_power::graphics::power::PowerCursor;
use system76_power::graphics::{Graphics, GraphicsDevice, GraphicsDeviceError, Step};

/// A PCI function of the simulated bus.
#[derive(Clone, Debug, PartialEq)]
struct Function {
    id: String,
    present: bool,
    driver: Option<String>,
    lookup_fails: bool,
    unbind_fails: bool,
    remove_fails: bool,
}

fn bound(id: &str, driver: &str) -> Function {
    Function {
        id: id.to_string(),
        present: true,
        driver: Some(driver.to_string()),
        lookup_fails: false,
        unbind_fails: false,
        remove_fails: false,
    }
}

fn unbound(id: &str) -> Function {
    Function { driver: None, ..bound(id, "") }
}

fn absent(id: &str) -> Function {
    Function { present: false, ..bound(id, "nvidia") }
}

fn failure(kind: FailureKind, message: &str) -> IoFailure {
    IoFailure { kind, message: message.to_string() }
}

/// The simulated bus: answers requests and keeps a record of them.
struct Bus {
    functions: Vec<Function>,
    rescan_fails: bool,
    log: Vec<Request>,
}

impl Bus {
    fn new(functions: Vec<Function>) -> Bus {
        Bus { functions, rescan_fails: false, log: Vec::new() }
    }

    fn function(&mut self, id: &str) -> &mut Function {
        match self.functions.iter_mut().find(|f| f.id == id) {
            Some(function) => function,
            None => panic!("no function {}", id),
        }
    }

    fn perform(&mut self, request: Request) -> Reply {
        self.log.push(request.clone());
        match request {
            Request::ProbePath { function } => Reply::Present(self.function(&function).present),
            Request::LookupDriver { function } => {
                let f = self.function(&function);
                if f.lookup_fails {
                    Reply::Driver(Err(failure(FailureKind::Other, "lookup")))
                } else {
                    match &f.driver {
                        Some(driver) => Reply::Driver(Ok(driver.clone())),
                        None => Reply::Driver(Err(failure(FailureKind::NotFound, "no driver"))),
                    }
                }
            }
            Request::Unbind { function, driver } => {
                let f = self.function(&function);
                assert_eq!(f.driver.as_deref(), Some(driver.as_str()));
                if f.unbind_fails {
                    Reply::Completed(Err(failure(FailureKind::Other, "unbind")))
                } else {
                    f.driver = None;
                    Reply::Completed(Ok(()))
                }
            }
            Request::Remove { function } => {
                let f = self.function(&function);
                if f.remove_fails {
                    Reply::Completed(Err(failure(FailureKind::Other, "remove")))
                } else {
                    f.present = false;
                    Reply::Completed(Ok(()))
                }
            }
            Request::Rescan => {
                if self.rescan_fails {
                    Reply::Completed(Err(failure(FailureKind::Other, "rescan")))
                } else {
                    for f in self.functions.iter_mut() {
                        if !f.present {
                            f.present = true;
                            f.driver = Some("nvidia".to_string());
                        }
                    }
                    Reply::Completed(Ok(()))
                }
            }
            other => panic!("unexpected request {:?}", other),
        }
    }

    fn drive_device(
        &mut self,
        device: &GraphicsDevice,
        mut step: Step<DeviceCursor>,
    ) -> Result<(), GraphicsDeviceError> {
        loop {
            match step {
                Step::Done(result) => return result,
                Step::Ask(cursor, request) => {
                    let reply = self.perform(request);
                    step = device.resume(cursor, reply);
                }
            }
        }
    }

    fn drive_power(
        &mut self,
        graphics: &Graphics,
        mut step: Step<PowerCursor>,
    ) -> Result<(), GraphicsDeviceError> {
        loop {
            match step {
                Step::Done(result) => return result,
                Step::Ask(cursor, request) => {
                    let reply = self.perform(request);
                    step = graphics.resume_power(cursor, reply);
                }
            }
        }
    }
}

fn device(id: &str, functions: &[&str]) -> GraphicsDevice {
    GraphicsDevice::new(id.to_string(), functions.iter().map(|f| f.to_string()).collect())
}

fn gpu() -> GraphicsDevice {
    device("0000:01:00.0", &["0000:01:00.0", "0000:01:00.1"])
}

fn probe(id: &str) -> Request {
    Request::ProbePath { function: id.to_string() }
}

fn lookup(id: &str) -> Request {
    Request::LookupDriver { function: id.to_string() }
}

fn unbind(id: &str, driver: &str) -> Request {
    Request::Unbind { function: id.to_string(), driver: driver.to_string() }
}

fn remove(id: &str) -> Request {
    Request::Remove { function: id.to_string() }
}

fn two_gpus() -> Graphics {
    Graphics {
        amd: vec![],
        intel: vec![device("0000:00:02.0", &["0000:00:02.0"])],
        nvidia: vec![
            device("0000:01:00.0", &["0000:01:00.0", "0000:01:00.1"]),
            device("0000:02:00.0", &["0000:02:00.0"]),
        ],
        other: vec![],
    }
}

fn two_gpu_bus() -> Bus {
    Bus::new(vec![
        bound("0000:01:00.0", "nvidia"),
        bound("0000:01:00.1", "snd_hda_intel"),
        bound("0000:02:00.0", "nvidia"),
    ])
}

#[test]
fn unbind_releases_every_bound_function() {
    let mut bus = Bus::new(vec![bound("0000:01:00.0", "nvidia"), bound("0000:01:00.1", "snd_hda_intel")]);
    let device = gpu();
    assert_eq!(bus.drive_device(&device, device.unbind()), Ok(()));
    assert_eq!(
        bus.log,
        vec![
            probe("0000:01:00.0"),
            lookup("0000:01:00.0"),
            unbind("0000:01:00.0", "nvidia"),
            probe("0000:01:00.1"),
            lookup("0000:01:00.1"),
            unbind("0000:01:00.1", "snd_hda_intel"),
        ]
    );
    assert!(bus.functions.iter().all(|f| f.present && f.driver.is_none()));
}

#[test]
fn unbind_passes_over_functions_without_a_driver() {
    let mut bus = Bus::new(vec![unbound("0000:01:00.0"), bound("0000:01:00.1", "snd_hda_intel")]);
    let device = gpu();
    assert_eq!(bus.drive_device(&device, device.unbind()), Ok(()));
    assert_eq!(
        bus.log,
        vec![
            probe("0000:01:00.0"),
            lookup("0000:01:00.0"),
            probe("0000:01:00.1"),
            lookup("0000:01:00.1"),
            unbind("0000:01:00.1", "snd_hda_intel"),
        ]
    );
}

#[test]
fn unbind_stops_at_a_failed_lookup() {
    let mut bus = Bus::new(vec![
        Function { lookup_fails: true, ..bound("0000:01:00.0", "nvidia") },
        bound("0000:01:00.1", "snd_hda_intel"),
    ]);
    let device = gpu();
    assert_eq!(
        bus.drive_device(&device, device.unbind()),
        Err(GraphicsDeviceError::PciDriver {
            device: "0000:01:00.0".to_string(),
            why: failure(FailureKind::Other, "lookup"),
        })
    );
    assert_eq!(bus.log, vec![probe("0000:01:00.0"), lookup("0000:01:00.0")]);
}

#[test]
fn unbind_stops_where_a_driver_does_not_release() {
    let mut bus = Bus::new(vec![
        bound("0000:01:00.0", "nvidia"),
        Function { unbind_fails: true, ..bound("0000:01:00.1", "snd_hda_intel") },
    ]);
    let device = gpu();
    assert_eq!(
        bus.drive_device(&device, device.unbind()),
        Err(GraphicsDeviceError::Unbind {
            func: "0000:01:00.1".to_string(),
            driver: "snd_hda_intel".to_string(),
            why: failure(FailureKind::Other, "unbind"),
        })
    );
    assert_eq!(bus.log.len(), 6);
}

#[test]
fn remove_removes_every_function_without_a_driver() {
    let mut bus = Bus::new(vec![unbound("0000:01:00.0"), unbound("0000:01:00.1")]);
    let device = gpu();
    assert_eq!(bus.drive_device(&device, device.remove()), Ok(()));
    assert_eq!(
        bus.log,
        vec![
            probe("0000:01:00.0"),
            lookup("0000:01:00.0"),
            remove("0000:01:00.0"),
            probe("0000:01:00.1"),
            lookup("0000:01:00.1"),
            remove("0000:01:00.1"),
        ]
    );
    assert!(bus.functions.iter().all(|f| !f.present));
}

#[test]
fn remove_of_a_bound_function_is_device_in_use() {
    let mut bus = Bus::new(vec![unbound("0000:01:00.0"), bound("0000:01:00.1", "snd_hda_intel")]);
    let device = device("0000:01:00.0", &["0000:01:00.0", "0000:01:00.1", "0000:01:00.2"]);
    bus.functions.push(unbound("0000:01:00.2"));
    assert_eq!(
        bus.drive_device(&device, device.remove()),
        Err(GraphicsDeviceError::DeviceInUse {
            func: "0000:01:00.1".to_string(),
            driver: "snd_hda_intel".to_string(),
        })
    );
    // the function before it is gone, the one after it was not touched
    assert_eq!(
        bus.log,
        vec![
            probe("0000:01:00.0"),
            lookup("0000:01:00.0"),
            remove("0000:01:00.0"),
            probe("0000:01:00.1"),
            lookup("0000:01:00.1"),
        ]
    );
    assert!(!bus.functions[0].present);
    assert!(bus.functions[1].present && bus.functions[2].present);
    assert_eq!(bus.functions[1].driver.as_deref(), Some("snd_hda_intel"));
}

#[test]
fn remove_stops_at_a_failed_lookup_or_removal() {
    let mut bus = Bus::new(vec![
        Function { remove_fails: true, ..unbound("0000:01:00.0") },
        unbound("0000:01:00.1"),
    ]);
    let device = gpu();
    assert_eq!(
        bus.drive_device(&device, device.remove()),
        Err(GraphicsDeviceError::Remove {
            device: "0000:01:00.0".to_string(),
            why: failure(FailureKind::Other, "remove"),
        })
    );
    assert_eq!(bus.log.len(), 3);

    let mut bus = Bus::new(vec![
        unbound("0000:01:00.0"),
        Function { lookup_fails: true, ..unbound("0000:01:00.1") },
    ]);
    assert_eq!(
        bus.drive_device(&device, device.remove()),
        Err(GraphicsDeviceError::PciDriver {
            device: "0000:01:00.0".to_string(),
            why: failure(FailureKind::Other, "lookup"),
        })
    );
    assert_eq!(bus.log.len(), 5);
}

#[test]
fn unbind_and_remove_of_an_absent_device_do_nothing() {
    let device = gpu();
    let mut bus = Bus::new(vec![absent("0000:01:00.0"), absent("0000:01:00.1")]);
    assert_eq!(bus.drive_device(&device, device.unbind()), Ok(()));
    assert_eq!(bus.log, vec![probe("0000:01:00.0"), probe("0000:01:00.1")]);
    let before = bus.functions.clone();
    bus.log.clear();
    assert_eq!(bus.drive_device(&device, device.remove()), Ok(()));
    assert_eq!(bus.log, vec![probe("0000:01:00.0"), probe("0000:01:00.1")]);
    assert_eq!(bus.functions, before);
}

#[test]
fn removing_twice_is_the_same_as_removing_once() {
    let device = gpu();
    let mut bus = Bus::new(vec![unbound("0000:01:00.0"), unbound("0000:01:00.1")]);
    assert_eq!(bus.drive_device(&device, device.remove()), Ok(()));
    let after_once = bus.functions.clone();
    assert_eq!(bus.drive_device(&device, device.remove()), Ok(()));
    assert_eq!(bus.functions, after_once);
}

#[test]
fn a_device_without_functions_is_done_at_once() {
    let device = device("0000:01:00.0", &[]);
    assert_eq!(device.unbind(), Step::Done(Ok(())));
    assert_eq!(device.remove(), Step::Done(Ok(())));
}

#[test]
fn a_reply_of_another_kind_leaves_the_operation_where_it_is() {
    let device = gpu();
    let cursor = || DeviceCursor {
        operation: DeviceOperation::Remove,
        function: 1,
        stage: DeviceStage::LookingUp,
    };
    assert_eq!(device.resume(cursor(), Reply::Present(true)), Step::Ask(cursor(), lookup("0000:01:00.1")));
    assert_eq!(
        device.resume(cursor(), Reply::Completed(Ok(()))),
        Step::Ask(cursor(), lookup("0000:01:00.1"))
    );
}

#[test]
fn a_cursor_beyond_the_functions_is_done() {
    let device = gpu();
    let cursor = DeviceCursor {
        operation: DeviceOperation::Unbind,
        function: 2,
        stage: DeviceStage::Probing,
    };
    assert_eq!(device.resume(cursor, Reply::Present(true)), Step::Done(Ok(())));
}

#[test]
fn power_is_refused_where_graphics_cannot_switch() {
    let only_nvidia = Graphics { amd: vec![], intel: vec![], nvidia: vec![gpu()], other: vec![] };
    let no_nvidia = Graphics { amd: vec![gpu()], intel: vec![gpu()], nvidia: vec![], other: vec![gpu()] };
    for graphics in [only_nvidia, no_nvidia] {
        assert_eq!(graphics.set_power(true), Step::Done(Err(GraphicsDeviceError::NotSwitchable)));
        assert_eq!(graphics.set_power(false), Step::Done(Err(GraphicsDeviceError::NotSwitchable)));
        assert_eq!(graphics.get_power(&vec![true]), Err(GraphicsDeviceError::NotSwitchable));
        assert_eq!(graphics.get_power(&vec![]), Err(GraphicsDeviceError::NotSwitchable));
    }
}

#[test]
fn power_is_on_where_an_nvidia_device_exists() {
    let graphics = two_gpus();
    assert_eq!(graphics.get_power(&vec![true, true]), Ok(true));
    assert_eq!(graphics.get_power(&vec![false, true]), Ok(true));
    assert_eq!(graphics.get_power(&vec![true, false]), Ok(true));
    assert_eq!(graphics.get_power(&vec![false, false]), Ok(false));
    assert_eq!(graphics.get_power(&vec![false, false, true]), Ok(false));
    assert_eq!(graphics.get_power(&vec![]), Ok(false));
}

#[test]
fn power_on_rescans_the_bus() {
    let graphics = two_gpus();
    let mut bus = Bus::new(vec![absent("0000:01:00.0")]);
    assert_eq!(bus.drive_power(&graphics, graphics.set_power(true)), Ok(()));
    assert_eq!(bus.log, vec![Request::Rescan]);
    assert!(bus.functions[0].present);

    let mut bus = Bus::new(vec![]);
    bus.rescan_fails = true;
    assert_eq!(
        bus.drive_power(&graphics, graphics.set_power(true)),
        Err(GraphicsDeviceError::Rescan(failure(FailureKind::Other, "rescan")))
    );
}

#[test]
fn power_off_unbinds_every_device_then_removes_every_device() {
    let graphics = two_gpus();
    let mut bus = two_gpu_bus();
    assert_eq!(bus.drive_power(&graphics, graphics.set_power(false)), Ok(()));
    assert_eq!(
        bus.log,
        vec![
            probe("0000:01:00.0"),
            lookup("0000:01:00.0"),
            unbind("0000:01:00.0", "nvidia"),
            probe("0000:01:00.1"),
            lookup("0000:01:00.1"),
            unbind("0000:01:00.1", "snd_hda_intel"),
            probe("0000:02:00.0"),
            lookup("0000:02:00.0"),
            unbind("0000:02:00.0", "nvidia"),
            probe("0000:01:00.0"),
            lookup("0000:01:00.0"),
            remove("0000:01:00.0"),
            probe("0000:01:00.1"),
            lookup("0000:01:00.1"),
            remove("0000:01:00.1"),
            probe("0000:02:00.0"),
            lookup("0000:02:00.0"),
            remove("0000:02:00.0"),
        ]
    );
    assert!(bus.functions.iter().all(|f| !f.present));
}

#[test]
fn power_off_goes_on_after_a_failed_unbind() {
    let graphics = two_gpus();
    let mut bus = two_gpu_bus();
    bus.functions[0].unbind_fails = true;
    let outcome = bus.drive_power(&graphics, graphics.set_power(false));
    // the first failure is the one reported
    assert_eq!(
        outcome,
        Err(GraphicsDeviceError::Unbind {
            func: "0000:01:00.0".to_string(),
            driver: "nvidia".to_string(),
            why: failure(FailureKind::Other, "unbind"),
        })
    );
    assert_eq!(
        bus.log,
        vec![
            probe("0000:01:00.0"),
            lookup("0000:01:00.0"),
            unbind("0000:01:00.0", "nvidia"),
            probe("0000:02:00.0"),
            lookup("0000:02:00.0"),
            unbind("0000:02:00.0", "nvidia"),
            probe("0000:01:00.0"),
            lookup("0000:01:00.0"),
            probe("0000:02:00.0"),
            lookup("0000:02:00.0"),
            remove("0000:02:00.0"),
        ]
    );
    // every unbind request comes before the first request of the removing pass
    let last_unbind = bus.log.iter().rposition(|r| matches!(r, Request::Unbind { .. }));
    let first_remove = bus.log.iter().position(|r| matches!(r, Request::Remove { .. }));
    assert!(last_unbind < first_remove);
    assert!(!bus.functions[2].present);
    assert!(bus.functions[0].present && bus.functions[1].present);
}

#[test]
fn power_off_reports_the_first_failure_of_the_removing_pass() {
    let graphics = two_gpus();
    let mut bus = two_gpu_bus();
    bus.functions[0].remove_fails = true;
    bus.functions[2].remove_fails = true;
    assert_eq!(
        bus.drive_power(&graphics, graphics.set_power(false)),
        Err(GraphicsDeviceError::Remove {
            device: "0000:01:00.0".to_string(),
            why: failure(FailureKind::Other, "remove"),
        })
    );
    assert_eq!(bus.log.iter().filter(|r| matches!(r, Request::Remove { .. })).count(), 2);
}

#[test]
fn power_off_passes_over_devices_without_functions() {
    let graphics = Graphics {
        amd: vec![gpu()],
        intel: vec![],
        nvidia: vec![device("a", &[]), device("0000:02:00.0", &["0000:02:00.0"]), device("b", &[])],
        other: vec![],
    };
    let mut bus = two_gpu_bus();
    assert_eq!(bus.drive_power(&graphics, graphics.set_power(false)), Ok(()));
    assert_eq!(
        bus.log,
        vec![
            probe("0000:02:00.0"),
            lookup("0000:02:00.0"),
            unbind("0000:02:00.0", "nvidia"),
            probe("0000:02:00.0"),
            lookup("0000:02:00.0"),
            remove("0000:02:00.0"),
        ]
    );
    let empty = Graphics {
        amd: vec![gpu()],
        intel: vec![],
        nvidia: vec![device("a", &[])],
        other: vec![],
    };
    assert_eq!(empty.set_power(false), Step::Done(Ok(())));
}

#[test]
fn power_off_then_on_brings_the_devices_back() {
    let graphics = two_gpus();
    let mut bus = two_gpu_bus();
    assert_eq!(bus.drive_power(&graphics, graphics.set_power(false)), Ok(()));
    assert!(bus.functions.iter().all(|f| !f.present));
    assert_eq!(bus.drive_power(&graphics, graphics.set_power(true)), Ok(()));
    assert!(bus.functions.iter().all(|f| f.present && f.driver.is_some()));
}

#[test]
fn auto_power_follows_the_vendor_mode() {
    let graphics = two_gpus();
    let names = |list: &[&str]| Ok(list.iter().map(|n| n.to_string()).collect::<Vec<String>>());
    assert_eq!(
        graphics.auto_power(names(&["nvidia"]), Ok("on\n".to_string())),
        Step::Ask(PowerCursor::Rescanning, Request::Rescan)
    );
    assert_eq!(
        graphics.auto_power(names(&["nouveau"]), Ok("on-demand\n".to_string())),
        Step::Ask(PowerCursor::Rescanning, Request::Rescan)
    );
    assert_eq!(graphics.auto_power(names(&["i915"]), Ok("on\n".to_string())), graphics.set_power(false));
    assert!(matches!(
        graphics.auto_power(names(&[]), Err(failure(FailureKind::NotFound, "gone"))),
        Step::Ask(PowerCursor::Pass { device: 0, .. }, Request::ProbePath { .. })
    ));
    assert_eq!(
        graphics.auto_power(Err(failure(FailureKind::Other, "proc")), Ok("on\n".to_string())),
        Step::Done(Err(GraphicsDeviceError::ModulesFetch(failure(FailureKind::Other, "proc"))))
    );
}

#[test]
fn auto_power_is_refused_where_graphics_cannot_switch() {
    let graphics = Graphics { amd: vec![], intel: vec![gpu()], nvidia: vec![], other: vec![] };
    assert_eq!(
        graphics.auto_power(Ok(vec!["nvidia".to_string()]), Ok("on\n".to_string())),
        Step::Done(Err(GraphicsDeviceError::NotSwitchable))
    );
}
