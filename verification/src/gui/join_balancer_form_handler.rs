//! What the form with which an agent joins a cluster does.
use vstd::prelude::*;

use crate::gui::join_balancer_form_data::JoinBalancerFormData;
use crate::gui::join_balancer_form_data::JoinBalancerFormView;
use crate::outside::is_digits;
use crate::outside::parse_number;
use crate::outside::parsed_number;
use crate::outside::says;
use crate::outside::ParsedNumber;
use crate::text::text_of;

verus! {

/// Something that was done in the form.
#[derive(Debug)]
pub enum Message {
    SetAgentName(String),
    SetBalancerAddress(String),
    SetSlotsCount(String),
    ToggleGpuDevice { index: usize, is_selected: bool },
    Connect,
    Cancel,
}

/// What follows from it.
#[derive(Debug)]
pub enum Action {
    /// Nothing.
    Stay,
    /// The form is left.
    Cancel,
    /// The agent joins the cluster.
    ConnectAgent {
        agent_name: Option<String>,
        management_address: String,
        slots: i32,
        gpu_devices: Vec<usize>,
    },
}

/// The content of what follows.
pub ghost enum ActionView {
    Stay,
    Cancel,
    ConnectAgent {
        agent_name: Option<Seq<char>>,
        management_address: Seq<char>,
        slots: i32,
        gpu_devices: Seq<usize>,
    },
}

impl View for Action {
    type V = ActionView;

    open spec fn view(&self) -> ActionView {
        match self {
            Action::Stay => ActionView::Stay,
            Action::Cancel => ActionView::Cancel,
            Action::ConnectAgent { agent_name, management_address, slots, gpu_devices } =>
                ActionView::ConnectAgent {
                agent_name: text_of(*agent_name),
                management_address: management_address@,
                slots: *slots,
                gpu_devices: gpu_devices@,
            },
        }
    }
}

/// The devices in ascending order.
pub open spec fn ascending(devices: Seq<usize>) -> Seq<usize> {
    devices.sort_by(|left: usize, right: usize| left <= right)
}

/// The devices without the first one that has the index.
pub open spec fn without_first(devices: Seq<usize>, index: usize) -> Seq<usize>
    decreases devices.len(),
{
    if devices.len() == 0 {
        devices
    } else if devices[0] == index {
        devices.subrange(1, devices.len() as int)
    } else {
        seq![devices[0]] + without_first(devices.subrange(1, devices.len() as int), index)
    }
}

/// What is wrong with the address of the cluster, if anything.
pub open spec fn address_error(address: Seq<char>, parses: bool) -> Option<Seq<char>> {
    if address.len() == 0 {
        Some("Cluster address is required."@)
    } else if !parses {
        Some("Invalid address, expected format: IP:port"@)
    } else {
        None
    }
}

/// What is wrong with the number of slots, if anything.
pub open spec fn slots_error(slots_count: Seq<char>, parsed: ParsedNumber) -> Option<Seq<char>> {
    if slots_count.len() == 0 {
        Some("Number of slots is required."@)
    } else {
        match parsed {
            ParsedNumber::Number(slots) => if slots > 0 {
                None
            } else {
                Some("Invalid number of slots (the number should be greater than zero)."@)
            },
            ParsedNumber::TooLarge => Some("Number of slots is too large."@),
            ParsedNumber::Invalid => Some("Invalid number of slots."@),
        }
    }
}

/// What is wrong with the selection of devices, if anything: none is selected,
/// though one has to be.
pub open spec fn devices_error(devices: Seq<usize>, required: bool) -> Option<Seq<char>> {
    if required && devices.len() == 0 {
        Some("Select at least one device."@)
    } else {
        None
    }
}

impl JoinBalancerFormView {
    /// The form after it was checked.
    pub open spec fn validated(
        self,
        address_parses: bool,
        parsed: ParsedNumber,
    ) -> JoinBalancerFormView {
        JoinBalancerFormView {
            balancer_address_error: address_error(self.balancer_address, address_parses),
            slots_error: slots_error(self.slots_count, parsed),
            gpu_devices_error: devices_error(self.gpu_devices, self.requires_device),
            ..self
        }
    }

    /// Whether nothing is wrong with the form.
    pub open spec fn is_valid(self, address_parses: bool, parsed: ParsedNumber) -> bool {
        &&& address_error(self.balancer_address, address_parses) is None
        &&& slots_error(self.slots_count, parsed) is None
        &&& devices_error(self.gpu_devices, self.requires_device) is None
    }

    /// What follows from asking to join.
    pub open spec fn connection(self, address_parses: bool, parsed: ParsedNumber) -> ActionView {
        if self.is_valid(address_parses, parsed) {
            ActionView::ConnectAgent {
                agent_name: if self.agent_name.len() == 0 {
                    None
                } else {
                    Some(self.agent_name)
                },
                management_address: self.balancer_address,
                slots: parsed->Number_0,
                gpu_devices: self.gpu_devices,
            }
        } else {
            ActionView::Stay
        }
    }

    /// The form after something was done in it.
    pub open spec fn after(self, message: Message, address_parses: bool) -> JoinBalancerFormView {
        match message {
            Message::SetAgentName(name) => JoinBalancerFormView { agent_name: name@, ..self },
            Message::SetBalancerAddress(address) => JoinBalancerFormView {
                balancer_address: address@,
                balancer_address_error: None,
                ..self
            },
            Message::SetSlotsCount(slots) => if is_digits(slots@) {
                JoinBalancerFormView { slots_count: slots@, slots_error: None, ..self }
            } else {
                self
            },
            Message::ToggleGpuDevice { index, is_selected } => JoinBalancerFormView {
                gpu_devices: if is_selected {
                    ascending(self.gpu_devices.push(index))
                } else {
                    without_first(self.gpu_devices, index)
                },
                gpu_devices_error: None,
                requires_device: true,
                ..self
            },
            Message::Connect => self.validated(address_parses, parsed_number(self.slots_count)),
            Message::Cancel => self,
        }
    }

    /// What follows from something that was done in the form.
    pub open spec fn action(self, message: Message, address_parses: bool) -> ActionView {
        match message {
            Message::Connect => self.connection(address_parses, parsed_number(self.slots_count)),
            Message::Cancel => ActionView::Cancel,
            _ => ActionView::Stay,
        }
    }
}

proof fn lemma_ascending(before: Seq<usize>, sorted: Seq<usize>)
    requires
        sorted.to_multiset() == before.to_multiset(),
        forall|i: int, j: int| 0 <= i < j < sorted.len() ==> sorted[i] <= sorted[j],
    ensures
        sorted == ascending(before),
{
    let leq = |left: usize, right: usize| left <= right;
    before.lemma_sort_by_ensures(leq);
    assert(vstd::relations::sorted_by(sorted, leq));
    vstd::seq_lib::lemma_sorted_unique(sorted, ascending(before), leq);
}

/// Sorts the devices in ascending order.
pub fn sort_ascending(devices: &mut Vec<usize>)
    ensures
        final(devices)@ == ascending(old(devices)@),
{
    let count: usize = devices.len();
    let mut i: usize = 0;
    while i < count
        invariant
            i <= count,
            devices@.len() == count,
            devices@.to_multiset() == old(devices)@.to_multiset(),
            forall|a: int, b: int| 0 <= a < b < i ==> devices@[a] <= devices@[b],
        decreases count - i,
    {
        let ghost before = devices@;
        let device: usize = devices.remove(i);
        let mut place: usize = 0;
        while place < i && devices[place] <= device
            invariant
                place <= i < count,
                devices@.len() == count - 1,
                forall|a: int| 0 <= a < place ==> devices@[a] <= device,
            decreases i - place,
        {
            place = place + 1;
        }
        let ghost rest = devices@;
        devices.insert(place, device);
        proof {
            before.to_multiset_ensures();
            rest.to_multiset_ensures();
            assert(before =~= rest.insert(i as int, device));
            lemma_insert_multiset(rest, i as int, device);
            lemma_insert_multiset(rest, place as int, device);
            assert forall|a: int, b: int| 0 <= a < b < i + 1 implies devices@[a]
                <= devices@[b] by {
                if a < place && b < place {
                    assert(rest[a] == before[a] && rest[b] == before[b]);
                } else if a < place && b == place {
                } else if a < place {
                    assert(rest[a] == before[a] && rest[b - 1] == before[b - 1]);
                } else if a == place {
                    assert(devices@[b] == rest[b - 1]);
                    assert(rest[place as int] == before[place as int]);
                    assert(rest[b - 1] == before[b - 1]);
                } else {
                    assert(rest[a - 1] == before[a - 1] && rest[b - 1] == before[b - 1]);
                }
            };
        }
        i = i + 1;
    }
    proof {
        lemma_ascending(old(devices)@, devices@);
    }
}

proof fn lemma_insert_multiset(rest: Seq<usize>, place: int, device: usize)
    requires
        0 <= place <= rest.len(),
    ensures
        rest.insert(place, device).to_multiset() == rest.to_multiset().insert(device),
{
    let left = rest.subrange(0, place);
    let right = rest.subrange(place, rest.len() as int);
    assert(rest =~= left + right);
    assert(rest.insert(place, device) =~= left.push(device) + right);
    vstd::seq_lib::lemma_multiset_commutative(left, right);
    vstd::seq_lib::lemma_multiset_commutative(left.push(device), right);
    left.to_multiset_ensures();
    assert(rest.insert(place, device).to_multiset() =~= rest.to_multiset().insert(device));
}

proof fn lemma_without_first(devices: Seq<usize>, index: usize, place: int)
    requires
        0 <= place < devices.len(),
        devices[place] == index,
        forall|i: int| 0 <= i < place ==> devices[i] != index,
    ensures
        without_first(devices, index) == devices.remove(place),
    decreases devices.len(),
{
    let rest = devices.subrange(1, devices.len() as int);
    if place == 0 {
        assert(rest =~= devices.remove(0));
    } else {
        lemma_without_first(rest, index, place - 1);
        assert(seq![devices[0]] + rest.remove(place - 1) =~= devices.remove(place));
    }
}

proof fn lemma_without_absent(devices: Seq<usize>, index: usize)
    requires
        forall|i: int| 0 <= i < devices.len() ==> devices[i] != index,
    ensures
        without_first(devices, index) == devices,
    decreases devices.len(),
{
    if devices.len() > 0 {
        let rest = devices.subrange(1, devices.len() as int);
        lemma_without_absent(rest, index);
        assert(seq![devices[0]] + rest =~= devices);
    }
}

/// Drops the first device that has the index.
pub fn remove_first(devices: &mut Vec<usize>, index: usize)
    ensures
        final(devices)@ == without_first(old(devices)@, index),
{
    let mut place: usize = 0;
    while place < devices.len()
        invariant
            place <= devices@.len(),
            devices@ == old(devices)@,
            forall|i: int| 0 <= i < place ==> devices@[i] != index,
        decreases devices.len() - place,
    {
        if devices[place] == index {
            proof {
                lemma_without_first(devices@, index, place as int);
            }
            devices.remove(place);
            return;
        }
        place = place + 1;
    }
    proof {
        lemma_without_absent(devices@, index);
    }
}

/// Whether the text consists of decimal digits.
pub fn all_digits(text: &str) -> (digits: bool)
    ensures
        digits == is_digits(text@),
{
    let count: usize = text.unicode_len();
    let mut i: usize = 0;
    while i < count
        invariant
            i <= count,
            count == text@.len(),
            forall|j: int| 0 <= j < i ==> '0' <= #[trigger] text@[j] <= '9',
        decreases count - i,
    {
        let character = text.get_char(i);
        if character < '0' || character > '9' {
            return false;
        }
        i = i + 1;
    }
    true
}

impl JoinBalancerFormData {
    /// Takes over what was done in the form, and says what follows from it.
    /// `address_parses` says whether the address in the form is a socket address.
    pub fn update(&mut self, message: Message, address_parses: bool) -> (action: Action)
        ensures
            final(self)@ == old(self)@.after(message, address_parses),
            action@ == old(self)@.action(message, address_parses),
            message is Connect ==> says(
                old(self)@.slots_count,
                parsed_number(old(self)@.slots_count),
            ),
    {
        match message {
            Message::SetAgentName(name) => {
                self.agent_name = name;
                Action::Stay
            },
            Message::SetBalancerAddress(address) => {
                self.balancer_address = address;
                self.balancer_address_error = None;
                Action::Stay
            },
            Message::SetSlotsCount(slots) => {
                if all_digits(slots.as_str()) {
                    self.slots_count = slots;
                    self.slots_error = None;
                }
                Action::Stay
            },
            Message::ToggleGpuDevice { index, is_selected } => {
                if is_selected {
                    self.gpu_devices.push(index);
                    sort_ascending(&mut self.gpu_devices);
                } else {
                    remove_first(&mut self.gpu_devices, index);
                }
                self.gpu_devices_error = None;
                self.requires_device = true;
                Action::Stay
            },
            Message::Connect => self.validate_and_connect(address_parses),
            Message::Cancel => Action::Cancel,
        }
    }

    /// Checks the form, and joins the cluster if nothing is wrong with it.
    pub fn validate_and_connect(&mut self, address_parses: bool) -> (action: Action)
        ensures
            final(self)@ == old(self)@.validated(
                address_parses,
                parsed_number(old(self)@.slots_count),
            ),
            action@ == old(self)@.connection(
                address_parses,
                parsed_number(old(self)@.slots_count),
            ),
            says(old(self)@.slots_count, parsed_number(old(self)@.slots_count)),
    {
        let parsed = parse_number(self.slots_count.as_str());
        self.connect_if_valid(address_parses, parsed)
    }

    /// Checks the form, in which the number of slots says `parsed`, and joins the
    /// cluster if nothing is wrong with it.
    pub fn connect_if_valid(&mut self, address_parses: bool, parsed: ParsedNumber) -> (action:
        Action)
        ensures
            final(self)@ == old(self)@.validated(address_parses, parsed),
            action@ == old(self)@.connection(address_parses, parsed),
    {
        self.balancer_address_error = None;
        self.slots_error = None;
        self.gpu_devices_error = None;

        if self.balancer_address.as_str().is_empty() {
            self.balancer_address_error = Some(String::from_str("Cluster address is required."));
        } else if !address_parses {
            self.balancer_address_error = Some(
                String::from_str("Invalid address, expected format: IP:port"),
            );
        }
        let slots: Option<i32> = if self.slots_count.as_str().is_empty() {
            self.slots_error = Some(String::from_str("Number of slots is required."));
            None
        } else {
            match parsed {
                ParsedNumber::Number(slots) => {
                    if slots > 0 {
                        Some(slots)
                    } else {
                        self.slots_error = Some(
                            String::from_str(
                                "Invalid number of slots (the number should be greater than zero).",
                            ),
                        );
                        None
                    }
                },
                ParsedNumber::TooLarge => {
                    self.slots_error = Some(String::from_str("Number of slots is too large."));
                    None
                },
                ParsedNumber::Invalid => {
                    self.slots_error = Some(String::from_str("Invalid number of slots."));
                    None
                },
            }
        };
        if self.requires_device && self.gpu_devices.len() == 0 {
            self.gpu_devices_error = Some(String::from_str("Select at least one device."));
        }
        if self.balancer_address_error.is_some() || self.slots_error.is_some()
            || self.gpu_devices_error.is_some() {
            return Action::Stay;
        }
        match slots {
            Some(slots) => {
                let agent_name = if self.agent_name.as_str().is_empty() {
                    None
                } else {
                    Some(self.agent_name.clone())
                };
                Action::ConnectAgent {
                    agent_name,
                    management_address: self.balancer_address.clone(),
                    slots,
                    gpu_devices: clone_devices(&self.gpu_devices),
                }
            },
            None => Action::Stay,
        }
    }
}

/// A copy of a list of devices.
pub fn clone_devices(devices: &Vec<usize>) -> (copy: Vec<usize>)
    ensures
        copy@ == devices@,
{
    let mut copy: Vec<usize> = Vec::new();
    let mut i: usize = 0;
    while i < devices.len()
        invariant
            i <= devices.len(),
            copy@ == devices@.subrange(0, i as int),
        decreases devices.len() - i,
    {
        copy.push(devices[i]);
        i = i + 1;
        assert(copy@ =~= devices@.subrange(0, i as int));
    }
    assert(copy@ =~= devices@);
    copy
}

/// An agent joins only with an address, a positive number of slots and, where one has
/// to be selected, at least one device.
pub proof fn only_a_complete_form_connects(
    form: JoinBalancerFormView,
    message: Message,
    address_parses: bool,
)
    requires
        form.action(message, address_parses) is ConnectAgent,
    ensures
        message is Connect,
        form.balancer_address.len() > 0,
        address_parses,
        form.action(message, address_parses)->slots > 0,
        form.requires_device ==> form.gpu_devices.len() > 0,
        form.after(message, address_parses).balancer_address_error is None,
        form.after(message, address_parses).slots_error is None,
        form.after(message, address_parses).gpu_devices_error is None,
{
}

/// A form without devices to select is not held up by that: it connects like one
/// with devices, and the agent is not restricted to any.
pub proof fn a_form_without_devices_connects(form: JoinBalancerFormView, address_parses: bool)
    requires
        !form.requires_device,
        form.gpu_devices.len() == 0,
        address_error(form.balancer_address, address_parses) is None,
        slots_error(form.slots_count, parsed_number(form.slots_count)) is None,
    ensures
        form.action(Message::Connect, address_parses) is ConnectAgent,
        form.action(Message::Connect, address_parses)->gpu_devices.len() == 0,
{
}

/// A form that does not connect says what is wrong with it.
pub proof fn a_refused_form_says_why(form: JoinBalancerFormView, address_parses: bool)
    requires
        !(form.action(Message::Connect, address_parses) is ConnectAgent),
    ensures
        form.after(Message::Connect, address_parses).balancer_address_error is Some || form.after(
            Message::Connect,
            address_parses,
        ).slots_error is Some || form.after(
            Message::Connect,
            address_parses,
        ).gpu_devices_error is Some,
{
}

/// Whether no device comes after one with a larger index.
pub open spec fn is_ascending(devices: Seq<usize>) -> bool {
    forall|i: int, j: int| 0 <= i < j < devices.len() ==> devices[i] <= devices[j]
}

proof fn lemma_ascending_is_ascending(devices: Seq<usize>)
    ensures
        is_ascending(ascending(devices)),
        ascending(devices).to_multiset() == devices.to_multiset(),
{
    let leq = |left: usize, right: usize| left <= right;
    devices.lemma_sort_by_ensures(leq);
    let sorted = ascending(devices);
    assert forall|i: int, j: int| 0 <= i < j < sorted.len() implies sorted[i] <= sorted[j] by {
        assert(leq(sorted[i], sorted[j]));
    };
}

proof fn lemma_without_first_place(devices: Seq<usize>, index: usize) -> (place: Option<int>)
    ensures
        match place {
            Some(place) => {
                &&& 0 <= place < devices.len()
                &&& devices[place] == index
                &&& without_first(devices, index) == devices.remove(place)
            },
            None => !devices.contains(index) && without_first(devices, index) == devices,
        },
{
    if devices.contains(index) {
        let place = devices.index_of_first(index)->0;
        devices.index_of_first_ensures(index);
        lemma_without_first(devices, index, place);
        Some(place)
    } else {
        assert forall|i: int| 0 <= i < devices.len() implies devices[i] != index by {
            assert(devices.contains(devices[i]));
        };
        lemma_without_absent(devices, index);
        None
    }
}

/// The selected devices stay in ascending order, whatever is done in the form.
pub proof fn devices_stay_ascending(
    form: JoinBalancerFormView,
    message: Message,
    address_parses: bool,
)
    requires
        is_ascending(form.gpu_devices),
    ensures
        is_ascending(form.after(message, address_parses).gpu_devices),
{
    if let Message::ToggleGpuDevice { index, is_selected } = message {
        if is_selected {
            lemma_ascending_is_ascending(form.gpu_devices.push(index));
        } else {
            lemma_without_first_place(form.gpu_devices, index);
        }
    }
}

/// Selecting a device and deselecting it again leaves the selection as it was.
pub proof fn deselecting_undoes_selecting(
    form: JoinBalancerFormView,
    index: usize,
    address_parses: bool,
)
    requires
        is_ascending(form.gpu_devices),
    ensures
        form.after(
            Message::ToggleGpuDevice { index, is_selected: true },
            address_parses,
        ).after(
            Message::ToggleGpuDevice { index, is_selected: false },
            address_parses,
        ).gpu_devices == form.gpu_devices,
{
    let leq = |left: usize, right: usize| left <= right;
    let devices = form.gpu_devices;
    let selected = ascending(devices.push(index));
    lemma_ascending_is_ascending(devices.push(index));
    devices.to_multiset_ensures();
    selected.to_multiset_ensures();
    assert(devices.push(index).to_multiset().contains(index));
    assert(selected.contains(index));
    let found = lemma_without_first_place(selected, index);
    let place = found->0;
    let rest = selected.remove(place);
    assert(rest.to_multiset() =~= devices.to_multiset());
    assert(vstd::relations::sorted_by(rest, leq));
    assert(vstd::relations::sorted_by(devices, leq));
    vstd::seq_lib::lemma_sorted_unique(rest, devices, leq);
}

/// The number of slots in the form is always a text of digits, if it was so at
/// the start.
pub proof fn slots_stay_digits(form: JoinBalancerFormView, message: Message, address_parses: bool)
    requires
        is_digits(form.slots_count),
    ensures
        is_digits(form.after(message, address_parses).slots_count),
{
}

/// An agent joins exactly if that was asked for with an address that is one, a positive
/// number of slots and, where one has to be selected, a device. It joins with what stands
/// in the form, and without a name where none stands there.
pub proof fn an_agent_joins_with_what_stands_in_the_form(
    form: &mut JoinBalancerFormData,
    address_parses: bool,
    parsed: ParsedNumber,
    action: Action,
)
    requires
        call_ensures(
            JoinBalancerFormData::connect_if_valid,
            (form, address_parses, parsed),
            action,
        ),
    ensures
        ({
            let before = old(form)@;
            let after = final(form)@;
            let has_address = before.balancer_address.len() > 0 && address_parses;
            let has_slots = before.slots_count.len() > 0 && (parsed matches ParsedNumber::Number(
                slots,
            ) && slots > 0);
            let has_devices = before.gpu_devices.len() > 0 || !before.requires_device;
            &&& action is ConnectAgent <==> has_address && has_slots && has_devices
            &&& action is ConnectAgent || action is Stay
            &&& after.balancer_address_error is None <==> has_address
            &&& after.slots_error is None <==> has_slots
            &&& after.gpu_devices_error is None <==> has_devices
            &&& action@ matches ActionView::ConnectAgent {
                agent_name,
                management_address,
                slots,
                gpu_devices,
            } ==> {
                &&& agent_name is None <==> before.agent_name.len() == 0
                &&& agent_name matches Some(name) ==> name == before.agent_name
                &&& management_address == before.balancer_address
                &&& parsed == ParsedNumber::Number(slots)
                &&& gpu_devices == before.gpu_devices
            }
            &&& after.agent_name == before.agent_name
            &&& after.balancer_address == before.balancer_address
            &&& after.gpu_devices == before.gpu_devices
            &&& after.slots_count == before.slots_count
            &&& after.requires_device == before.requires_device
        }),
{
}

/// What is done in the form stands in it, and nothing else changes: a name and an address
/// as they are, a number of slots if it is made of digits. What is changed is not wrong
/// any more until the form is checked again.
pub proof fn what_is_done_stands_in_the_form(
    form: &mut JoinBalancerFormData,
    message: Message,
    address_parses: bool,
    action: Action,
)
    requires
        call_ensures(JoinBalancerFormData::update, (form, message, address_parses), action),
    ensures
        ({
            let before = old(form)@;
            let after = final(form)@;
            &&& action is Cancel <==> message is Cancel
            &&& action is ConnectAgent ==> message is Connect
            &&& after.agent_name == (match message {
                Message::SetAgentName(name) => name@,
                _ => before.agent_name,
            })
            &&& after.balancer_address == (match message {
                Message::SetBalancerAddress(address) => address@,
                _ => before.balancer_address,
            })
            &&& message is SetBalancerAddress ==> after.balancer_address_error is None
            &&& message matches Message::SetSlotsCount(slots) ==> {
                let digits = forall|i: int|
                    0 <= i < slots@.len() ==> '0' <= #[trigger] slots@[i] <= '9';
                &&& digits ==> after.slots_count == slots@ && after.slots_error is None
                &&& !digits ==> after == before
            }
            &&& !(message is SetSlotsCount) ==> after.slots_count == before.slots_count
            &&& !(message is ToggleGpuDevice) ==> after.gpu_devices == before.gpu_devices
                && after.requires_device == before.requires_device
            &&& message is Cancel ==> after == before
            &&& !(message is Connect) ==> {
                &&& after.balancer_address_error == before.balancer_address_error
                    || message is SetBalancerAddress
                &&& after.slots_error == before.slots_error || message is SetSlotsCount
                &&& after.gpu_devices_error == before.gpu_devices_error
                    || message is ToggleGpuDevice
            }
        }),
{
}

/// A device that is selected is selected once more than before, and one that is deselected
/// once less, if it was; the others are selected as often as before, and all stand in
/// ascending order where they did.
pub proof fn devices_are_selected_one_by_one(
    form: &mut JoinBalancerFormData,
    index: usize,
    is_selected: bool,
    address_parses: bool,
    action: Action,
    other: usize,
)
    requires
        call_ensures(
            JoinBalancerFormData::update,
            (form, Message::ToggleGpuDevice { index, is_selected }, address_parses),
            action,
        ),
        other != index,
    ensures
        ({
            let before = old(form)@.gpu_devices;
            let after = final(form)@.gpu_devices;
            let times_before = before.to_multiset().count(index);
            let times_after = after.to_multiset().count(index);
            &&& is_selected ==> times_after == times_before + 1
            &&& !is_selected && times_before > 0 ==> times_after == times_before - 1
            &&& !is_selected && times_before == 0 ==> after == before
            &&& after.to_multiset().count(other) == before.to_multiset().count(other)
            &&& is_ascending(before) || is_selected ==> is_ascending(after)
            &&& final(form)@.gpu_devices_error is None
            &&& final(form)@.requires_device
            &&& action is Stay
        }),
{
    let before = old(form)@.gpu_devices;
    before.to_multiset_ensures();
    if is_selected {
        lemma_ascending_is_ascending(before.push(index));
    } else {
        let found = lemma_without_first_place(before, index);
        if let Some(place) = found {
            assert(before.contains(index));
        }
    }
}

} // verus!
