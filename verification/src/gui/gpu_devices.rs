//! The devices that an agent can run its model on.
use vstd::prelude::*;

use crate::text::decimal;
use crate::text::push_decimal;

verus! {

/// The kind of a backend device.
#[derive(Clone, Copy, Debug, PartialEq, Eq, Structural)]
pub enum LlamaBackendDeviceType {
    Cpu,
    Accelerator,
    Gpu,
    IntegratedGpu,
    Unknown,
}

/// A device that llama.cpp can see on this machine.
#[derive(Debug)]
pub struct LlamaBackendDevice {
    pub index: usize,
    pub name: String,
    pub description: String,
    pub backend: String,
    pub memory_total: usize,
    pub memory_free: usize,
    pub device_type: LlamaBackendDeviceType,
}

/// A backend device (GPU, integrated GPU, accelerator, or CPU) that the agent can
/// be restricted to, in the same index order accepted by
/// `paddler agent --gpu-devices`.
#[derive(Debug, PartialEq, Eq)]
pub struct GpuDevice {
    /// Index of the device, as accepted by the agent's `gpu_devices` parameter
    pub index: usize,
    /// Full human-readable description of the device, formatted like
    /// `paddler list-gpu-devices`
    pub description: String,
}

impl Clone for GpuDevice {
    fn clone(&self) -> (copy: Self)
        ensures
            copy == *self,
    {
        GpuDevice { index: self.index, description: self.description.clone() }
    }
}

impl LlamaBackendDeviceType {
    /// What the kind is called.
    pub open spec fn text(self) -> Seq<char> {
        match self {
            LlamaBackendDeviceType::Accelerator => "accelerator"@,
            LlamaBackendDeviceType::Cpu => "cpu"@,
            LlamaBackendDeviceType::Gpu => "gpu"@,
            LlamaBackendDeviceType::IntegratedGpu => "integrated gpu"@,
            LlamaBackendDeviceType::Unknown => "unknown"@,
        }
    }

    /// What the kind is called.
    pub fn label(&self) -> (label: &'static str)
        ensures
            label@ == self.text(),
    {
        match self {
            LlamaBackendDeviceType::Accelerator => "accelerator",
            LlamaBackendDeviceType::Cpu => "cpu",
            LlamaBackendDeviceType::Gpu => "gpu",
            LlamaBackendDeviceType::IntegratedGpu => "integrated gpu",
            LlamaBackendDeviceType::Unknown => "unknown",
        }
    }
}

/// How a device is described.
pub open spec fn device_text(device: LlamaBackendDevice) -> Seq<char> {
    decimal(device.index as nat) + ": "@ + device.name@ + " ("@ + device.device_type.text() + ", "@
        + device.backend@ + " backend, "@ + decimal((device.memory_free / 1024 / 1024) as nat)
        + " MiB free / "@ + decimal((device.memory_total / 1024 / 1024) as nat)
        + " MiB total) - "@ + device.description@
}

/// Describes a device.
pub fn format_device(device: &LlamaBackendDevice) -> (text: String)
    ensures
        text@ == device_text(*device),
{
    let mut text = String::new();
    push_decimal(&mut text, device.index as u128);
    text.append(": ");
    text.append(device.name.as_str());
    text.append(" (");
    text.append(device.device_type.label());
    text.append(", ");
    text.append(device.backend.as_str());
    text.append(" backend, ");
    push_decimal(&mut text, (device.memory_free / 1024 / 1024) as u128);
    text.append(" MiB free / ");
    push_decimal(&mut text, (device.memory_total / 1024 / 1024) as u128);
    text.append(" MiB total) - ");
    text.append(device.description.as_str());
    assert(text@ =~= device_text(*device));
    text
}

/// The devices that llama.cpp can see on this machine, as far as it could be
/// asked.
///
/// Where the devices could not be listed there are none, in which case the agent
/// will use every detected device at runtime.
pub fn detect_devices(listed: Result<Vec<LlamaBackendDevice>, String>) -> (devices: Vec<GpuDevice>)
    ensures
        match listed {
            Ok(listed) => {
                &&& devices@.len() == listed@.len()
                &&& forall|i: int|
                    0 <= i < devices@.len() ==> {
                        &&& (#[trigger] devices@[i]).index == listed@[i].index
                        &&& devices@[i].description@ == device_text(listed@[i])
                    }
            },
            Err(_) => devices@.len() == 0,
        },
{
    let mut devices: Vec<GpuDevice> = Vec::new();
    if let Ok(listed) = listed {
        let mut i: usize = 0;
        while i < listed.len()
            invariant
                i <= listed.len(),
                devices@.len() == i,
                forall|j: int|
                    0 <= j < i ==> {
                        &&& (#[trigger] devices@[j]).index == listed@[j].index
                        &&& devices@[j].description@ == device_text(listed@[j])
                    },
            decreases listed.len() - i,
        {
            devices.push(
                GpuDevice { index: listed[i].index, description: format_device(&listed[i]) },
            );
            i = i + 1;
        }
    }
    devices
}

/// The command that lists the devices of this machine, in the index order
/// accepted by `paddler agent --gpu-devices`.
#[derive(Clone, Copy, Debug, PartialEq, Eq, Structural)]
pub struct ListGpuDevices;

/// What follows the list of devices.
pub open spec fn listing_hint() -> Seq<char> {
    "\nPass one or more of the indices above to `paddler agent --gpu-devices` to restrict inference to those devices, e.g. --gpu-devices 0 or --gpu-devices 0,1."@
}

impl ListGpuDevices {
    /// The lines that the command prints.
    pub fn handle(self, devices: &Vec<LlamaBackendDevice>) -> (lines: Vec<String>)
        ensures
            if devices@.len() == 0 {
                lines@.len() == 1 && lines@[0]@ == "No backend devices detected."@
            } else {
                &&& lines@.len() == devices@.len() + 1
                &&& forall|i: int|
                    0 <= i < devices@.len() ==> (#[trigger] lines@[i])@ == device_text(devices@[i])
                &&& lines@[devices@.len() as int]@ == listing_hint()
            },
    {
        let mut lines: Vec<String> = Vec::new();
        if devices.len() == 0 {
            lines.push(String::from_str("No backend devices detected."));
            return lines;
        }
        let mut i: usize = 0;
        while i < devices.len()
            invariant
                i <= devices.len(),
                lines@.len() == i,
                forall|j: int|
                    0 <= j < i ==> (#[trigger] lines@[j])@ == device_text(devices@[j]),
            decreases devices.len() - i,
        {
            lines.push(format_device(&devices[i]));
            i = i + 1;
        }
        lines.push(
            String::from_str(
                "\nPass one or more of the indices above to `paddler agent --gpu-devices` to restrict inference to those devices, e.g. --gpu-devices 0 or --gpu-devices 0,1.",
            ),
        );
        lines
    }
}

/// A device is told by its index, its name, its sort and its backend, with its memory in
/// whole mebibytes, of which any rest is left out.
pub proof fn memory_is_told_in_whole_mebibytes(
    device: &LlamaBackendDevice,
    text: String,
    label: &'static str,
    free: nat,
    free_rest: nat,
    total: nat,
    total_rest: nat,
)
    requires
        call_ensures(format_device, (device,), text),
        call_ensures(LlamaBackendDeviceType::label, (&device.device_type,), label),
        device.memory_free == free * 1_048_576 + free_rest,
        free_rest < 1_048_576,
        device.memory_total == total * 1_048_576 + total_rest,
        total_rest < 1_048_576,
    ensures
        text@ == decimal(device.index as nat) + ": "@ + device.name@ + " ("@ + label@ + ", "@
            + device.backend@ + " backend, "@ + decimal(free) + " MiB free / "@ + decimal(total)
            + " MiB total) - "@ + device.description@,
{
    let free_bytes = device.memory_free as int;
    let total_bytes = device.memory_total as int;
    assert(free_bytes / 1024 / 1024 == free) by (nonlinear_arith)
        requires
            free_bytes == free * 1_048_576 + free_rest,
            0 <= free_rest < 1_048_576,
    ;
    assert(total_bytes / 1024 / 1024 == total) by (nonlinear_arith)
        requires
            total_bytes == total * 1_048_576 + total_rest,
            0 <= total_rest < 1_048_576,
    ;
}

/// There is one device for each that is listed, in the order of the list, with its index
/// and its description; none where they could not be listed.
pub proof fn every_listed_device_is_detected(
    listed: Result<Vec<LlamaBackendDevice>, String>,
    devices: Vec<GpuDevice>,
    i: int,
    text: String,
)
    requires
        call_ensures(detect_devices, (listed,), devices),
        listed matches Ok(listed) ==> call_ensures(format_device, (&listed@[i],), text),
    ensures
        devices@.len() == (match listed {
            Ok(listed) => listed@.len(),
            Err(_) => 0,
        }),
        0 <= i < devices@.len() ==> {
            &&& devices@[i].index == listed->Ok_0@[i].index
            &&& devices@[i].description@ == text@
        },
{
}

/// Every device is printed on a line of its own, in the order of the list, and one more
/// line follows; without devices there is one line.
pub proof fn every_device_is_printed(
    command: ListGpuDevices,
    devices: &Vec<LlamaBackendDevice>,
    lines: Vec<String>,
    i: int,
    text: String,
)
    requires
        call_ensures(ListGpuDevices::handle, (command, devices), lines),
        call_ensures(format_device, (&devices@[i],), text),
    ensures
        lines@.len() == devices@.len() + 1,
        0 <= i < devices@.len() ==> lines@[i]@ == text@,
        devices@.len() > 0 ==> lines@.last()@
            == "\nPass one or more of the indices above to `paddler agent --gpu-devices` to restrict inference to those devices, e.g. --gpu-devices 0 or --gpu-devices 0,1."@,
{
}

} // verus!
