//! IOKit backend: GPU detection from PCI display controllers.
use vstd::prelude::*;
use crate::gpu_info::{GpuError, GpuRecord};
use crate::text::{
    hex_chars_padded, hexadecimal, push_all, push_str_chars, string_from_chars, zero_pad,
};
use crate::vendor::{IntelGpuType, Vendor};

verus! {

/// Handle of an IOKit iterator.
pub type IoIterator = u32;

/// Handle of an IOKit service.
pub type IoService = u32;

/// Whether an IOKit service handle refers to a service (is not null).
pub fn io_service_is_valid(service: IoService) -> (r: bool)
    ensures
        r == (service != 0),
{
    service != 0
}

/// PCI identifiers of a GPU device.
#[derive(Debug, Clone, PartialEq, Eq, Structural)]
pub struct PciInfo {
    /// PCI bus number.
    pub bus: u8,
    /// PCI device number.
    pub device: u8,
    /// PCI function number.
    pub function: u8,
    /// Vendor ID (0x10DE NVIDIA, 0x1002 AMD, 0x8086 Intel, 0x106B Apple).
    pub vendor_id: u16,
    /// Device ID.
    pub device_id: u16,
}

/// The vendor owning a PCI vendor ID.
pub open spec fn pci_vendor_spec(vendor_id: u16) -> Vendor {
    if vendor_id == 0x10DE {
        Vendor::Nvidia
    } else if vendor_id == 0x1002 {
        Vendor::Amd
    } else if vendor_id == 0x8086 {
        Vendor::Intel(IntelGpuType::Unknown)
    } else if vendor_id == 0x106B {
        Vendor::Apple
    } else {
        Vendor::Unknown
    }
}

/// The name given to a GPU known only by its PCI IDs:
/// `"Unknown GPU vvvv:dddd"` with four lowercase hex digits each.
pub open spec fn pci_gpu_name(p: PciInfo) -> Seq<char> {
    "Unknown GPU "@ + zero_pad(hexadecimal(p.vendor_id as nat), 4) + ":"@ + zero_pad(
        hexadecimal(p.device_id as nat),
        4,
    )
}

impl PciInfo {
    /// PCI information with the given identifiers.
    pub fn new(bus: u8, device: u8, function: u8, vendor_id: u16, device_id: u16) -> (r: Self)
        ensures
            r == (PciInfo { bus, device, function, vendor_id, device_id }),
    {
        PciInfo { bus, device, function, vendor_id, device_id }
    }

    /// The vendor identified by the vendor ID.
    pub fn vendor(&self) -> (r: Vendor)
        ensures
            r == pci_vendor_spec(self.vendor_id),
    {
        if self.vendor_id == 0x10DE {
            Vendor::Nvidia
        } else if self.vendor_id == 0x1002 {
            Vendor::Amd
        } else if self.vendor_id == 0x8086 {
            Vendor::Intel(IntelGpuType::Unknown)
        } else if self.vendor_id == 0x106B {
            Vendor::Apple
        } else {
            Vendor::Unknown
        }
    }
}

/// The record of a GPU found on the PCI bus: its vendor and a name made of
/// its PCI IDs.
pub open spec fn pci_record(r: GpuRecord, p: PciInfo) -> bool {
    &&& r.vendor == pci_vendor_spec(p.vendor_id)
    &&& r.name_gpu matches Some(n) && n@ == pci_gpu_name(p)
    &&& r.core_clock is None
    &&& r.memory_clock is None
    &&& r.active is None
    &&& r.memory_total is None
    &&& r.memory_used is None
    &&& r.driver_version is None
    &&& r.max_clock_speed is None
}

/// IOKit-based GPU detection backend.
pub struct IOKitBackend {
    _private: (),
}

impl Default for IOKitBackend {
    fn default() -> (r: Self) {
        IOKitBackend { _private: () }
    }
}

impl IOKitBackend {
    /// Creates the backend; IOKit needs no initialisation, so this succeeds.
    pub fn new() -> (r: Result<Self, GpuError>)
        ensures
            r is Ok,
    {
        Ok(IOKitBackend { _private: () })
    }

    /// Creates the backend in a build that has it (`built`, the
    /// `macos-iokit` build feature) or not: as `new` when built with it,
    /// `DriverNotInstalled` otherwise.
    pub fn for_build(built: bool) -> (r: Result<Self, GpuError>)
        ensures
            built ==> r is Ok,
            !built ==> r matches Err(GpuError::DriverNotInstalled),
    {
        if built {
            Self::new()
        } else {
            Err(GpuError::DriverNotInstalled)
        }
    }

    /// The records of all GPUs found on the PCI bus, one per display
    /// controller, in enumeration order.
    pub fn detect_gpus(&self) -> (r: Result<Vec<GpuRecord>, GpuError>)
        ensures
            r matches Ok(v) && v@.len() == 0,
    {
        self.scan_pci_devices()
    }

    fn scan_pci_devices(&self) -> (r: Result<Vec<GpuRecord>, GpuError>)
        ensures
            r matches Ok(v) && v@.len() == 0,
    {
        let devices = self.enumerate_display_controllers()?;
        let mut gpus: Vec<GpuRecord> = Vec::new();
        let mut i: usize = 0;
        while i < devices.len()
            invariant
                i <= devices@.len(),
                devices@.len() == 0,
                gpus@.len() == i,
                forall|k: int| 0 <= k < i ==> pci_record(#[trigger] gpus@[k], devices@[k]),
            decreases devices@.len() - i,
        {
            let gpu = self.create_gpu_info_from_pci(&devices[i]);
            gpus.push(gpu);
            i = i + 1;
        }
        Ok(gpus)
    }

    /// The PCI display controllers, in enumeration order.
    pub fn enumerate_display_controllers(&self) -> (r: Result<Vec<PciInfo>, GpuError>)
        ensures
            r matches Ok(v) && v@.len() == 0,
    {
        let iterator = self.get_matching_services()?;
        let mut devices: Vec<PciInfo> = Vec::new();
        loop
            invariant
                devices@.len() == 0,
            decreases 0nat,
        {
            match self.next_device(iterator) {
                Some(pci_info) => {
                    devices.push(pci_info);
                },
                None => {
                    break ;
                },
            }
        }
        Ok(devices)
    }

    /// An iterator over the PCI display controllers; IOKit matching is not
    /// available here, so the iterator is the null handle.
    pub fn get_matching_services(&self) -> (r: Result<IoIterator, GpuError>)
        ensures
            r == Ok::<IoIterator, GpuError>(0),
    {
        Ok(0)
    }

    /// The next PCI device of an iterator; the null iterator yields none.
    pub fn next_device(&self, iterator: IoIterator) -> (r: Option<PciInfo>)
        ensures
            r is None,
    {
        None
    }

    /// The record of the GPU at `pci_info`.
    pub fn create_gpu_info_from_pci(&self, pci_info: &PciInfo) -> (r: GpuRecord)
        ensures
            pci_record(r, *pci_info),
    {
        let mut name: Vec<char> = Vec::new();
        push_str_chars(&mut name, "Unknown GPU ");
        let v = hex_chars_padded(pci_info.vendor_id as u64, 4);
        push_all(&mut name, v.as_slice());
        push_str_chars(&mut name, ":");
        let d = hex_chars_padded(pci_info.device_id as u64, 4);
        push_all(&mut name, d.as_slice());
        let mut gpu = GpuRecord::write_vendor(pci_info.vendor());
        gpu.name_gpu = Some(string_from_chars(name.as_slice()));
        gpu
    }

    /// Leaves the record unchanged: IOKit gives no dynamic metrics here.
    pub fn update_gpu(&self, gpu: &mut GpuRecord) -> (r: Result<(), GpuError>)
        ensures
            r is Ok,
            *final(gpu) == *old(gpu),
    {
        Ok(())
    }

    /// PCI information of the named device; not available through IOKit
    /// here, so always `None`.
    pub fn get_pci_info(&self, device_name: &str) -> (r: Option<PciInfo>)
        ensures
            r is None,
    {
        None
    }
}

} // verus!
