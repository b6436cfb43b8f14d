//! Finding the display devices among the PCI functions of a machine.

use crate::graphics::host::IoFailure;
use crate::graphics::{Graphics, GraphicsDevice};
use crate::text::same_text;
use vstd::prelude::*;

verus! {

/// The vendors of display devices that the engine tells apart.
#[derive(Clone, Copy, Debug, PartialEq, Eq, Structural)]
pub enum GpuVendor {
    Amd,
    Intel,
    Nvidia,
    Other,
}

/// One PCI function as the host found it: its id, of the form `slot.func`,
/// and what reading its class code and its vendor id gave.
#[derive(Debug, PartialEq, Eq)]
pub struct PciFunction {
    pub id: String,
    pub class: Result<u32, IoFailure>,
    pub vendor: Result<u16, IoFailure>,
}

/// A device as its id and the ids of its functions.
pub struct DeviceModel {
    pub id: String,
    pub functions: Seq<String>,
}

impl View for GraphicsDevice {
    type V = DeviceModel;

    open spec fn view(&self) -> DeviceModel {
        DeviceModel { id: self.spec_id(), functions: self.spec_functions() }
    }
}

/// The devices of a list as their models.
pub open spec fn models(devices: Seq<GraphicsDevice>) -> Seq<DeviceModel> {
    devices.map_values(|device: GraphicsDevice| device@)
}

/// A class code is that of a display device where its top byte is 3.
pub open spec fn is_display(class: u32) -> bool {
    (class >> 16) & 0xFF == 0x03
}

/// The vendor that a vendor id stands for.
pub open spec fn vendor_of(id: u16) -> GpuVendor {
    if id == 0x1002 {
        GpuVendor::Amd
    } else if id == 0x10DE {
        GpuVendor::Nvidia
    } else if id == 0x8086 {
        GpuVendor::Intel
    } else {
        GpuVendor::Other
    }
}

/// The number of characters before the first dot of an id, or the length
/// of the id where it has none.
pub open spec fn slot_len(id: Seq<char>, from: int) -> int
    decreases id.len() - from,
{
    if from < 0 || from >= id.len() {
        id.len() as int
    } else if id[from] == '.' {
        from
    } else {
        slot_len(id, from + 1)
    }
}

/// The slot of a function: its id up to the first dot.
pub open spec fn slot(id: Seq<char>) -> Seq<char> {
    id.take(slot_len(id, 0))
}

/// Why the discovery fails at a function, if it does: its class code could
/// not be read, or it is a display device and its vendor id could not be
/// read.
pub open spec fn entry_failure(function: PciFunction) -> Option<IoFailure> {
    match function.class {
        Err(why) => Some(why),
        Ok(class) => if is_display(class) {
            match function.vendor {
                Err(why) => Some(why),
                Ok(_) => None,
            }
        } else {
            None
        },
    }
}

/// The vendor of a function that is a display device.
pub open spec fn entry_vendor(function: PciFunction) -> Option<GpuVendor> {
    match (function.class, function.vendor) {
        (Ok(class), Ok(vendor)) => if is_display(class) {
            Some(vendor_of(vendor))
        } else {
            None
        },
        _ => None,
    }
}

/// The failure of the first function from `from` on at which the discovery
/// fails.
pub open spec fn scan_failure(scan: Seq<PciFunction>, from: int) -> Option<IoFailure>
    decreases scan.len() - from,
{
    if from < 0 || from >= scan.len() {
        None
    } else if entry_failure(scan[from]) is Some {
        entry_failure(scan[from])
    } else {
        scan_failure(scan, from + 1)
    }
}

/// The ids of those among the first `upto` functions that share the slot
/// `parent`, in their order.
pub open spec fn siblings(scan: Seq<PciFunction>, parent: Seq<char>, upto: int) -> Seq<String>
    decreases upto,
{
    if upto <= 0 || upto > scan.len() {
        Seq::empty()
    } else if slot(scan[upto - 1].id@) == parent {
        siblings(scan, parent, upto - 1).push(scan[upto - 1].id)
    } else {
        siblings(scan, parent, upto - 1)
    }
}

/// The device that a function stands for: the functions of its slot.
pub open spec fn device_of(scan: Seq<PciFunction>, index: int) -> DeviceModel {
    DeviceModel {
        id: scan[index].id,
        functions: siblings(scan, slot(scan[index].id@), scan.len() as int),
    }
}

/// The devices of a vendor among the first `upto` functions, in their
/// order: one for each function that is a display device of that vendor.
pub open spec fn devices(scan: Seq<PciFunction>, vendor: GpuVendor, upto: int) -> Seq<DeviceModel>
    decreases upto,
{
    if upto <= 0 || upto > scan.len() {
        Seq::empty()
    } else if entry_vendor(scan[upto - 1]) == Some(vendor) {
        devices(scan, vendor, upto - 1).push(device_of(scan, upto - 1))
    } else {
        devices(scan, vendor, upto - 1)
    }
}

/// Whether a class code is that of a display device.
pub fn display_class(class: u32) -> (display: bool)
    ensures
        display == is_display(class),
{
    (class >> 16) & 0xFF == 0x03
}

/// The vendor that a vendor id stands for.
pub fn classify_vendor(id: u16) -> (vendor: GpuVendor)
    ensures
        vendor == vendor_of(id),
{
    if id == 0x1002 {
        GpuVendor::Amd
    } else if id == 0x10DE {
        GpuVendor::Nvidia
    } else if id == 0x8086 {
        GpuVendor::Intel
    } else {
        GpuVendor::Other
    }
}

/// The slot of a function: its id up to the first dot.
pub fn slot_of<'a>(id: &'a str) -> (prefix: &'a str)
    ensures
        prefix@ == slot(id@),
{
    let n: usize = id.unicode_len();
    let mut end: usize = 0;
    while end < n && id.get_char(end) != '.'
        invariant
            n == id@.len(),
            end <= n,
            slot_len(id@, 0) == slot_len(id@, end as int),
        decreases n - end,
    {
        end += 1;
    }
    id.substring_char(0, end)
}

fn copy_failure(failure: &IoFailure) -> (copy: IoFailure)
    ensures
        copy == *failure,
{
    IoFailure { kind: failure.kind, message: failure.message.clone() }
}

fn siblings_of(scan: &Vec<PciFunction>, parent: &str) -> (ids: Vec<String>)
    ensures
        ids@ == siblings(scan@, parent@, scan@.len() as int),
{
    let mut ids: Vec<String> = Vec::new();
    let mut i: usize = 0;
    while i < scan.len()
        invariant
            i <= scan.len(),
            ids@ == siblings(scan@, parent@, i as int),
        decreases scan.len() - i,
    {
        if same_text(slot_of(scan[i].id.as_str()), parent) {
            ids.push(scan[i].id.clone());
        }
        i += 1;
    }
    ids
}

impl Graphics {
    /// Sorts the display devices among the scanned functions by vendor.
    ///
    /// Each function that is a display device becomes a device with the
    /// functions of its slot. The discovery fails with the first failure to
    /// read a class code, or the vendor id of a display device.
    pub fn new(scan: &Vec<PciFunction>) -> (found: Result<Graphics, IoFailure>)
        ensures
            match found {
                Ok(graphics) => {
                    &&& scan_failure(scan@, 0) is None
                    &&& models(graphics.amd@) == devices(scan@, GpuVendor::Amd, scan@.len() as int)
                    &&& models(graphics.intel@) == devices(
                        scan@,
                        GpuVendor::Intel,
                        scan@.len() as int,
                    )
                    &&& models(graphics.nvidia@) == devices(
                        scan@,
                        GpuVendor::Nvidia,
                        scan@.len() as int,
                    )
                    &&& models(graphics.other@) == devices(
                        scan@,
                        GpuVendor::Other,
                        scan@.len() as int,
                    )
                },
                Err(why) => scan_failure(scan@, 0) == Some(why),
            },
    {
        let mut amd: Vec<GraphicsDevice> = Vec::new();
        let mut intel: Vec<GraphicsDevice> = Vec::new();
        let mut nvidia: Vec<GraphicsDevice> = Vec::new();
        let mut other: Vec<GraphicsDevice> = Vec::new();
        let mut i: usize = 0;
        assert(models(amd@) =~= devices(scan@, GpuVendor::Amd, 0));
        assert(models(intel@) =~= devices(scan@, GpuVendor::Intel, 0));
        assert(models(nvidia@) =~= devices(scan@, GpuVendor::Nvidia, 0));
        assert(models(other@) =~= devices(scan@, GpuVendor::Other, 0));
        while i < scan.len()
            invariant
                i <= scan.len(),
                scan_failure(scan@, 0) == scan_failure(scan@, i as int),
                models(amd@) == devices(scan@, GpuVendor::Amd, i as int),
                models(intel@) == devices(scan@, GpuVendor::Intel, i as int),
                models(nvidia@) == devices(scan@, GpuVendor::Nvidia, i as int),
                models(other@) == devices(scan@, GpuVendor::Other, i as int),
            decreases scan.len() - i,
        {
            let function: &PciFunction = &scan[i];
            let class: u32 = match &function.class {
                Ok(class) => *class,
                Err(why) => {
                    return Err(copy_failure(why));
                },
            };
            if display_class(class) {
                let vendor: u16 = match &function.vendor {
                    Ok(vendor) => *vendor,
                    Err(why) => {
                        return Err(copy_failure(why));
                    },
                };
                let device: GraphicsDevice = GraphicsDevice::new(
                    function.id.clone(),
                    siblings_of(scan, slot_of(function.id.as_str())),
                );
                assert(device@ == device_of(scan@, i as int));
                let ghost before_amd = amd@;
                let ghost before_intel = intel@;
                let ghost before_nvidia = nvidia@;
                let ghost before_other = other@;
                match classify_vendor(vendor) {
                    GpuVendor::Amd => {
                        amd.push(device);
                        assert(models(amd@) =~= models(before_amd).push(device@));
                    },
                    GpuVendor::Nvidia => {
                        nvidia.push(device);
                        assert(models(nvidia@) =~= models(before_nvidia).push(device@));
                    },
                    GpuVendor::Intel => {
                        intel.push(device);
                        assert(models(intel@) =~= models(before_intel).push(device@));
                    },
                    GpuVendor::Other => {
                        other.push(device);
                        assert(models(other@) =~= models(before_other).push(device@));
                    },
                }
            }
            i += 1;
        }
        Ok(Graphics { amd, intel, nvidia, other })
    }
}

/// The function that a device stands for is among the functions of the
/// device: a discovered device has functions.
pub proof fn law_device_holds_itself(scan: Seq<PciFunction>, index: int)
    requires
        0 <= index < scan.len(),
    ensures
        device_of(scan, index).functions.contains(scan[index].id),
        device_of(scan, index).functions.len() > 0,
{
    lemma_sibling_listed(scan, slot(scan[index].id@), scan.len() as int, index);
}

/// A function is listed among the functions of its slot.
proof fn lemma_sibling_listed(scan: Seq<PciFunction>, parent: Seq<char>, upto: int, index: int)
    requires
        0 <= index < upto <= scan.len(),
        slot(scan[index].id@) == parent,
    ensures
        siblings(scan, parent, upto).contains(scan[index].id),
    decreases upto,
{
    let before = siblings(scan, parent, upto - 1);
    if index == upto - 1 {
        assert(before.push(scan[index].id)[before.len() as int] == scan[index].id);
    } else {
        lemma_sibling_listed(scan, parent, upto - 1, index);
        let k = choose|k: int| 0 <= k < before.len() && before[k] == scan[index].id;
        if slot(scan[upto - 1].id@) == parent {
            assert(before.push(scan[upto - 1].id)[k] == scan[index].id);
        }
    }
}

/// Every device that the discovery lists under a vendor stands for a
/// scanned function that is a display device of that vendor, and has
/// functions.
pub proof fn law_discovered_devices(scan: Seq<PciFunction>, vendor: GpuVendor, upto: int, k: int)
    requires
        0 <= upto <= scan.len(),
        0 <= k < devices(scan, vendor, upto).len(),
    ensures
        devices(scan, vendor, upto)[k].functions.len() > 0,
        exists|index: int|
            0 <= index < upto && entry_vendor(#[trigger] scan[index]) == Some(vendor) && devices(
                scan,
                vendor,
                upto,
            )[k] == device_of(scan, index),
    decreases upto,
{
    if upto > 0 {
        let before = devices(scan, vendor, upto - 1);
        if k < before.len() {
            law_discovered_devices(scan, vendor, upto - 1, k);
            let index = choose|index: int|
                0 <= index < upto - 1 && entry_vendor(#[trigger] scan[index]) == Some(vendor)
                    && before[k] == device_of(scan, index);
            assert(entry_vendor(scan[index]) == Some(vendor));
        } else {
            law_device_holds_itself(scan, upto - 1);
            assert(entry_vendor(scan[upto - 1]) == Some(vendor));
        }
    }
}

} // verus!
