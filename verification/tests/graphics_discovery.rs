use system76_power::graphics::discovery::{
    classify_vendor, display_class, slot_of, GpuVendor, PciFunction,
};
use system76_power::graphics::host::{FailureKind, IoFailure};
use system76_power::graphics::{Graphics, GraphicsDevice, GraphicsDeviceError};

fn failure(message: &str) -> IoFailure {
    IoFailure { kind: FailureKind::Other, message: message.to_string() }
}

fn function(id: &str, class: u32, vendor: u16) -> PciFunction {
    PciFunction { id: id.to_string(), class: Ok(class), vendor: Ok(vendor) }
}

fn device(id: &str, functions: &[&str]) -> GraphicsDevice {
    GraphicsDevice::new(id.to_string(), functions.iter().map(|f| f.to_string()).collect())
}

fn graphics(amd: usize, intel: usize, nvidia: usize, other: usize) -> Graphics {
    let list = |count: usize| (0..count).map(|i| device(&format!("0000:0{}:00.0", i), &["0000:00:00.0"])).collect();
    Graphics { amd: list(amd), intel: list(intel), nvidia: list(nvidia), other: list(other) }
}

#[test]
fn display_class_is_the_top_byte() {
    assert!(display_class(0x030000));
    assert!(display_class(0x030200));
    assert!(display_class(0x03ffff));
    assert!(display_class(0xab030000));
    assert!(!display_class(0x040300));
    assert!(!display_class(0x000003));
    assert!(!display_class(0x020000));
    assert!(!display_class(0));
}

#[test]
fn vendor_ids() {
    assert_eq!(classify_vendor(0x1002), GpuVendor::Amd);
    assert_eq!(classify_vendor(0x10DE), GpuVendor::Nvidia);
    assert_eq!(classify_vendor(0x8086), GpuVendor::Intel);
    assert_eq!(classify_vendor(0x1234), GpuVendor::Other);
    assert_eq!(classify_vendor(0), GpuVendor::Other);
}

#[test]
fn slot_is_the_id_up_to_the_first_dot() {
    assert_eq!(slot_of("0000:01:00.0"), "0000:01:00");
    assert_eq!(slot_of("0000:01:00.1"), "0000:01:00");
    assert_eq!(slot_of("a.b.c"), "a");
    assert_eq!(slot_of("nodot"), "nodot");
    assert_eq!(slot_of(".0"), "");
    assert_eq!(slot_of(""), "");
}

#[test]
fn discovery_sorts_display_devices_by_vendor() {
    let scan = vec![
        function("0000:00:02.0", 0x030000, 0x8086),
        function("0000:00:1f.3", 0x040300, 0x8086),
        function("0000:01:00.0", 0x030200, 0x10DE),
        function("0000:01:00.1", 0x040300, 0x10DE),
        function("0000:02:00.0", 0x030000, 0x1002),
        function("0000:03:00.0", 0x038000, 0x1a03),
        function("0000:04:00.0", 0x020000, 0x10ec),
    ];
    let found = match Graphics::new(&scan) {
        Ok(found) => found,
        Err(why) => panic!("{:?}", why),
    };
    assert_eq!(found.intel, vec![device("0000:00:02.0", &["0000:00:02.0"])]);
    assert_eq!(found.nvidia, vec![device("0000:01:00.0", &["0000:01:00.0", "0000:01:00.1"])]);
    assert_eq!(found.amd, vec![device("0000:02:00.0", &["0000:02:00.0"])]);
    assert_eq!(found.other, vec![device("0000:03:00.0", &["0000:03:00.0"])]);
    assert!(found.can_switch());
}

#[test]
fn discovery_lists_each_display_function_as_a_device() {
    let scan = vec![
        function("0000:01:00.1", 0x030200, 0x10DE),
        function("0000:01:00.0", 0x030000, 0x10DE),
    ];
    let found = match Graphics::new(&scan) {
        Ok(found) => found,
        Err(why) => panic!("{:?}", why),
    };
    assert_eq!(
        found.nvidia,
        vec![
            device("0000:01:00.1", &["0000:01:00.1", "0000:01:00.0"]),
            device("0000:01:00.0", &["0000:01:00.1", "0000:01:00.0"]),
        ]
    );
    assert!(found.amd.is_empty() && found.intel.is_empty() && found.other.is_empty());
    assert!(!found.can_switch());
}

#[test]
fn discovery_of_nothing() {
    let found = match Graphics::new(&vec![]) {
        Ok(found) => found,
        Err(why) => panic!("{:?}", why),
    };
    assert!(found.amd.is_empty() && found.intel.is_empty());
    assert!(found.nvidia.is_empty() && found.other.is_empty());
}

#[test]
fn discovery_fails_on_an_unreadable_class() {
    let scan = vec![
        function("0000:00:02.0", 0x030000, 0x8086),
        PciFunction { id: "0000:01:00.0".to_string(), class: Err(failure("class")), vendor: Ok(0x10DE) },
        PciFunction { id: "0000:02:00.0".to_string(), class: Err(failure("later")), vendor: Ok(0x10DE) },
    ];
    assert_eq!(Graphics::new(&scan).err(), Some(failure("class")));
}

#[test]
fn discovery_fails_on_an_unreadable_vendor_of_a_display_device() {
    let scan = vec![
        PciFunction { id: "0000:00:1f.3".to_string(), class: Ok(0x040300), vendor: Err(failure("ignored")) },
        PciFunction { id: "0000:01:00.0".to_string(), class: Ok(0x030000), vendor: Err(failure("vendor")) },
    ];
    assert_eq!(Graphics::new(&scan).err(), Some(failure("vendor")));
}

#[test]
fn discovery_does_not_read_the_vendor_of_other_devices() {
    let scan = vec![
        PciFunction { id: "0000:00:1f.3".to_string(), class: Ok(0x040300), vendor: Err(failure("ignored")) },
        function("0000:00:02.0", 0x030000, 0x8086),
    ];
    let found = match Graphics::new(&scan) {
        Ok(found) => found,
        Err(why) => panic!("{:?}", why),
    };
    assert_eq!(found.intel, vec![device("0000:00:02.0", &["0000:00:02.0"])]);
}

#[test]
fn switchable_needs_nvidia_and_an_integrated_gpu() {
    for amd in 0..3 {
        for intel in 0..3 {
            for nvidia in 0..3 {
                for other in 0..2 {
                    let expected = nvidia > 0 && (intel > 0 || amd > 0);
                    assert_eq!(graphics(amd, intel, nvidia, other).can_switch(), expected);
                }
            }
        }
    }
}

#[test]
fn switchable_or_fail_reports_not_switchable() {
    assert_eq!(graphics(1, 1, 0, 1).switchable_or_fail(), Err(GraphicsDeviceError::NotSwitchable));
    assert_eq!(graphics(0, 0, 2, 0).switchable_or_fail(), Err(GraphicsDeviceError::NotSwitchable));
    assert_eq!(graphics(0, 1, 1, 0).switchable_or_fail(), Ok(()));
    assert_eq!(graphics(1, 0, 1, 0).switchable_or_fail(), Ok(()));
}

#[test]
fn device_keeps_its_id_and_functions() {
    let gpu = device("0000:01:00.0", &["0000:01:00.0", "0000:01:00.1"]);
    assert_eq!(gpu.id(), "0000:01:00.0");
    assert_eq!(gpu.functions(), &vec!["0000:01:00.0".to_string(), "0000:01:00.1".to_string()]);
}

#[test]
fn device_is_present_where_a_function_is() {
    let gpu = device("0000:01:00.0", &["0000:01:00.0", "0000:01:00.1"]);
    assert!(gpu.is_present(&vec![true, true]));
    assert!(gpu.is_present(&vec![false, true]));
    assert!(gpu.is_present(&vec![true]));
    assert!(!gpu.is_present(&vec![false, false]));
    assert!(!gpu.is_present(&vec![false, false, true]));
    assert!(!gpu.is_present(&vec![]));
    assert!(!device("x", &[]).is_present(&vec![true]));
}
