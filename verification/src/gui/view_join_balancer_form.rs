//! The list of devices in the form with which an agent joins a cluster.
use vstd::prelude::*;

use crate::gui::gpu_devices::GpuDevice;
use crate::gui::join_balancer_form_data::JoinBalancerFormData;

verus! {

/// Number of characters that fit on one line of the device label
pub const DEVICE_LABEL_CHARS_PER_LINE: usize = 55;

/// A device in the list.
#[derive(Debug)]
pub struct DeviceRow {
    pub index: usize,
    pub label: String,
    pub is_selected: bool,
}

/// The list of devices.
#[derive(Debug)]
pub struct DeviceList {
    pub rows: Vec<DeviceRow>,
    /// Total text lines across all devices, so the list can be sized to its content
    pub total_text_lines: u128,
}

/// How many lines a text of that many characters takes.
pub open spec fn lines_needed(characters: nat) -> nat {
    (characters + DEVICE_LABEL_CHARS_PER_LINE as nat - 1) as nat / DEVICE_LABEL_CHARS_PER_LINE as nat
}

/// How many lines the descriptions of the devices take.
pub open spec fn lines_of(devices: Seq<GpuDevice>) -> nat
    decreases devices.len(),
{
    if devices.len() == 0 {
        0
    } else {
        lines_of(devices.drop_last()) + lines_needed(devices.last().description@.len())
    }
}

fn is_selected(gpu_devices: &Vec<usize>, index: usize) -> (selected: bool)
    ensures
        selected == gpu_devices@.contains(index),
{
    let mut i: usize = 0;
    while i < gpu_devices.len()
        invariant
            i <= gpu_devices.len(),
            forall|j: int| 0 <= j < i ==> gpu_devices@[j] != index,
        decreases gpu_devices.len() - i,
    {
        if gpu_devices[i] == index {
            return true;
        }
        i = i + 1;
    }
    false
}

/// The devices with their descriptions, of which those in the form are selected.
pub fn view_gpu_devices_field(
    data: &JoinBalancerFormData,
    devices: &Vec<GpuDevice>,
) -> (list: DeviceList)
    ensures
        list.rows@.len() == devices@.len(),
        forall|i: int|
            0 <= i < devices@.len() ==> {
                &&& (#[trigger] list.rows@[i]).index == devices@[i].index
                &&& list.rows@[i].label == devices@[i].description
                &&& list.rows@[i].is_selected == data.gpu_devices@.contains(devices@[i].index)
            },
        list.total_text_lines == lines_of(devices@),
{
    let mut rows: Vec<DeviceRow> = Vec::new();
    let mut total_text_lines: u128 = 0;
    let mut i: usize = 0;
    while i < devices.len()
        invariant
            i <= devices.len(),
            rows@.len() == i,
            forall|j: int|
                0 <= j < i ==> {
                    &&& (#[trigger] rows@[j]).index == devices@[j].index
                    &&& rows@[j].label == devices@[j].description
                    &&& rows@[j].is_selected == data.gpu_devices@.contains(devices@[j].index)
                },
            total_text_lines == lines_of(devices@.subrange(0, i as int)),
            total_text_lines <= i * 0x1_0000_0000_0000_0000,
        decreases devices.len() - i,
    {
        let device = &devices[i];
        proof {
            let next = devices@.subrange(0, i + 1);
            assert(next.drop_last() =~= devices@.subrange(0, i as int));
            assert(next.last() == devices@[i as int]);
            assert((i + 1) * 0x1_0000_0000_0000_0000 == i * 0x1_0000_0000_0000_0000
                + 0x1_0000_0000_0000_0000);
        }
        let characters: u128 = device.description.as_str().unicode_len() as u128;
        let lines: u128 = (characters + DEVICE_LABEL_CHARS_PER_LINE as u128 - 1)
            / DEVICE_LABEL_CHARS_PER_LINE as u128;
        total_text_lines = total_text_lines + lines;
        rows.push(
            DeviceRow {
                index: device.index,
                label: device.description.clone(),
                is_selected: is_selected(&data.gpu_devices, device.index),
            },
        );
        i = i + 1;
    }
    assert(devices@.subrange(0, i as int) =~= devices@);
    DeviceList { rows, total_text_lines }
}

/// A text takes the fewest lines on which it fits, and devices take as many lines as
/// their descriptions do together.
pub proof fn texts_take_the_fewest_lines_they_fit_on(
    characters: nat,
    devices: Seq<GpuDevice>,
    further: GpuDevice,
)
    ensures
        lines_needed(characters) * 55 >= characters,
        characters > 0 ==> (lines_needed(characters) - 1) * 55 < characters,
        characters == 0 ==> lines_needed(characters) == 0,
        lines_of(Seq::empty()) == 0,
        lines_of(devices.push(further)) == lines_of(devices) + lines_needed(
            further.description@.len(),
        ),
{
    assert(devices.push(further).drop_last() =~= devices);
}

/// Every device has a row, in the order of the devices, with what it is called; it is
/// selected exactly if it is among the devices of the form.
pub proof fn every_device_has_a_row(
    data: &JoinBalancerFormData,
    devices: &Vec<GpuDevice>,
    list: DeviceList,
    i: int,
    j: int,
)
    requires
        call_ensures(view_gpu_devices_field, (data, devices), list),
        0 <= i < devices@.len(),
        0 <= j < data.gpu_devices@.len(),
    ensures
        list.rows@.len() == devices@.len(),
        list.rows@[i].index == devices@[i].index,
        list.rows@[i].label@ == devices@[i].description@,
        data.gpu_devices@[j] == devices@[i].index ==> list.rows@[i].is_selected,
        (forall|k: int|
            0 <= k < data.gpu_devices@.len() ==> #[trigger] data.gpu_devices@[k]
                != devices@[i].index) ==> !list.rows@[i].is_selected,
        list.total_text_lines == lines_of(devices@),
{
    assert(list.rows@[i].index == devices@[i].index);
}

} // verus!
