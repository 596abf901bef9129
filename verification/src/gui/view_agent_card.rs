//! What is shown of an agent.
use vstd::prelude::*;

use crate::messaging::agent_controller_snapshot::AgentControllerSnapshot;
use crate::messaging::agent_issue::AgentIssueView;
use crate::messaging::agent_state_application_status::AgentStateApplicationStatus;
use crate::outside::file_name;
use crate::outside::final_name;
use crate::outside::is_portable_path;
use crate::outside::last_part;
use crate::outside::may_be_file_name;
use crate::outside::trimmed_path;
use crate::text::a_minus_sign_marks_negative_numbers;
use crate::text::clone_text;
use crate::text::decimal;
use crate::text::number_read;
use crate::text::push_decimal;
use crate::text::push_signed_decimal;
use crate::text::signed_decimal;
use crate::text::text_of;
use crate::text::written_numbers_can_be_read;

verus! {

/// What an agent is doing.
#[derive(Clone, Copy, Debug, PartialEq, Eq, Structural)]
pub enum StatusLabel {
    /// It downloads: so many bytes of so many. They are shown as a percentage.
    Downloading { current: u64, total: u64 },
    /// It does something that has a name.
    Named(NamedStatus),
}

/// Something that an agent does.
#[derive(Clone, Copy, Debug, PartialEq, Eq, Structural)]
pub enum NamedStatus {
    WaitingForModel,
    Fine,
    Pending,
    Retrying,
    SeemsStuck,
    NeedsHelp,
}

impl NamedStatus {
    /// What it is called.
    pub fn text(&self) -> (text: &'static str)
        ensures
            text@ == match *self {
                NamedStatus::WaitingForModel => "Waiting for model..."@,
                NamedStatus::Fine => "OK"@,
                NamedStatus::Pending => "Pending"@,
                NamedStatus::Retrying => "Retrying"@,
                NamedStatus::SeemsStuck => "Retrying, but seems stuck?"@,
                NamedStatus::NeedsHelp => "Needs your help"@,
            },
    {
        match self {
            NamedStatus::WaitingForModel => "Waiting for model...",
            NamedStatus::Fine => "OK",
            NamedStatus::Pending => "Pending",
            NamedStatus::Retrying => "Retrying",
            NamedStatus::SeemsStuck => "Retrying, but seems stuck?",
            NamedStatus::NeedsHelp => "Needs your help",
        }
    }
}

/// What is shown of an agent.
#[derive(Debug)]
pub struct AgentCard {
    pub name: Option<String>,
    /// What runs on it; nothing while it downloads, of which a progress bar is
    /// shown instead.
    pub model_label: Option<String>,
    pub status: StatusLabel,
    /// How many issues it has, if any.
    pub issues_label: Option<String>,
    pub slots_label: String,
    /// Whether it generates tokens, the rate of which is then shown.
    pub shows_rate: bool,
}

/// Whether an agent downloads a model.
pub open spec fn is_downloading(snapshot: AgentControllerSnapshot) -> bool {
    snapshot.download_total > 0 && snapshot.download_current < snapshot.download_total
}

/// What an agent is doing.
pub open spec fn status_of(snapshot: AgentControllerSnapshot) -> StatusLabel {
    if is_downloading(snapshot) {
        StatusLabel::Downloading {
            current: snapshot.download_current,
            total: snapshot.download_total,
        }
    } else if snapshot.model_path is None {
        StatusLabel::Named(NamedStatus::WaitingForModel)
    } else {
        StatusLabel::Named(
            match snapshot.state_application_status {
                AgentStateApplicationStatus::Applied => NamedStatus::Fine,
                AgentStateApplicationStatus::Fresh => NamedStatus::Pending,
                AgentStateApplicationStatus::AttemptedAndRetrying => NamedStatus::Retrying,
                AgentStateApplicationStatus::Stuck => NamedStatus::SeemsStuck,
                AgentStateApplicationStatus::AttemptedAndNotAppliable => NamedStatus::NeedsHelp,
            },
        )
    }
}

/// The slots of an agent: busy, there, and wanted.
pub open spec fn slots_text(snapshot: AgentControllerSnapshot) -> Seq<char> {
    signed_decimal(snapshot.slots_processing as int) + "/"@ + signed_decimal(
        snapshot.slots_total as int,
    ) + "/"@ + signed_decimal(snapshot.desired_slots_total as int)
}

/// Whether `label` can be what is shown of a path: its file name, or all of it
/// where it has none.
pub open spec fn is_last_part(path: Seq<char>, label: Seq<char>) -> bool {
    exists|name: Option<Seq<char>>| #[trigger]
        may_be_file_name(path, name) && label == shown_part(path, name)
}

/// What is shown of a path whose file name is `name`.
pub open spec fn shown_part(path: Seq<char>, name: Option<Seq<char>>) -> Seq<char> {
    match name {
        Some(name) => name,
        None => path,
    }
}

/// What is shown of a path whose file name is `name`.
pub fn part_or_path(path: &str, name: Option<String>) -> (label: String)
    ensures
        label@ == shown_part(path@, text_of(name)),
{
    match name {
        Some(name) => name,
        None => String::from_str(path),
    }
}

/// What is shown of a path: its file name, or all of it where it has none.
pub fn display_last_path_part(path: &str) -> (label: String)
    ensures
        is_last_part(path@, label@),
        is_portable_path(path@) && trimmed_path(path@) != "."@ ==> label@ == shown_part(
            path@,
            final_name(path@),
        ),
        label@.len() == 0 ==> path@.len() == 0,
{
    let name = file_name(path);
    let ghost found = text_of(name);
    let label = part_or_path(path, name);
    assert(may_be_file_name(path@, found) && label@ == shown_part(path@, found));
    label
}

/// What is shown of an agent.
pub fn view_agent_card(snapshot: &AgentControllerSnapshot) -> (card: AgentCard)
    ensures
        card.name == snapshot.name,
        match card.model_label {
            Some(label) => !is_downloading(*snapshot) && match snapshot.model_path {
                Some(path) => is_last_part(path@, label@),
                None => label@ == "No model loaded"@,
            },
            None => is_downloading(*snapshot),
        },
        card.status == status_of(*snapshot),
        match card.issues_label {
            Some(label) => snapshot.issues@ != Set::<AgentIssueView>::empty() && label@ == decimal(
                snapshot.issues@.len(),
            ) + " issues"@,
            None => snapshot.issues@ == Set::<AgentIssueView>::empty(),
        },
        card.slots_label@ == slots_text(*snapshot),
        card.shows_rate == snapshot.tokens_per_second.positive(),
{
    let downloading = snapshot.download_total > 0 && snapshot.download_current
        < snapshot.download_total;
    let model_label = if downloading {
        None
    } else {
        match &snapshot.model_path {
            Some(path) => Some(display_last_path_part(path.as_str())),
            None => Some(String::from_str("No model loaded")),
        }
    };
    let status = if downloading {
        StatusLabel::Downloading {
            current: snapshot.download_current,
            total: snapshot.download_total,
        }
    } else if snapshot.model_path.is_none() {
        StatusLabel::Named(NamedStatus::WaitingForModel)
    } else {
        StatusLabel::Named(
            match snapshot.state_application_status {
                AgentStateApplicationStatus::Applied => NamedStatus::Fine,
                AgentStateApplicationStatus::Fresh => NamedStatus::Pending,
                AgentStateApplicationStatus::AttemptedAndRetrying => NamedStatus::Retrying,
                AgentStateApplicationStatus::Stuck => NamedStatus::SeemsStuck,
                AgentStateApplicationStatus::AttemptedAndNotAppliable => NamedStatus::NeedsHelp,
            },
        )
    };
    let issues_label = if snapshot.issues.is_empty() {
        None
    } else {
        let mut label = String::new();
        push_decimal(&mut label, snapshot.issues.len() as u128);
        label.append(" issues");
        assert(label@ =~= decimal(snapshot.issues@.len()) + " issues"@);
        Some(label)
    };
    let mut slots_label = String::new();
    push_signed_decimal(&mut slots_label, snapshot.slots_processing);
    slots_label.append("/");
    push_signed_decimal(&mut slots_label, snapshot.slots_total);
    slots_label.append("/");
    push_signed_decimal(&mut slots_label, snapshot.desired_slots_total);
    assert(slots_label@ =~= slots_text(*snapshot));
    AgentCard {
        name: clone_text(&snapshot.name),
        model_label,
        status,
        issues_label,
        slots_label,
        shows_rate: snapshot.tokens_per_second.is_positive(),
    }
}

/// An agent downloads exactly if some of what it is to download is missing, and then that
/// is what is shown. Else it waits for a model exactly if it has none, and is fine exactly
/// if it has one and is in the state it is to be in.
pub proof fn an_agent_is_fine_once_its_state_is_applied(
    snapshot: &AgentControllerSnapshot,
    card: AgentCard,
)
    requires
        call_ensures(view_agent_card, (snapshot,), card),
    ensures
        ({
            let downloads = snapshot.download_current < snapshot.download_total;
            &&& card.status is Downloading <==> downloads
            &&& card.model_label is None <==> downloads
            &&& downloads ==> card.status == (StatusLabel::Downloading {
                current: snapshot.download_current,
                total: snapshot.download_total,
            })
            &&& card.status == StatusLabel::Named(NamedStatus::WaitingForModel) <==> !downloads
                && snapshot.model_path is None
            &&& card.status == StatusLabel::Named(NamedStatus::Fine) <==> !downloads
                && snapshot.model_path is Some && snapshot.state_application_status
                == AgentStateApplicationStatus::Applied
            &&& card.status == StatusLabel::Named(NamedStatus::NeedsHelp) <==> !downloads
                && snapshot.model_path is Some && snapshot.state_application_status
                == AgentStateApplicationStatus::AttemptedAndNotAppliable
            &&& card.status == StatusLabel::Named(NamedStatus::SeemsStuck) <==> !downloads
                && snapshot.model_path is Some && snapshot.state_application_status
                == AgentStateApplicationStatus::Stuck
            &&& card.status == StatusLabel::Named(NamedStatus::Pending) <==> !downloads
                && snapshot.model_path is Some && snapshot.state_application_status
                == AgentStateApplicationStatus::Fresh
            &&& card.status == StatusLabel::Named(NamedStatus::Retrying) <==> !downloads
                && snapshot.model_path is Some && snapshot.state_application_status
                == AgentStateApplicationStatus::AttemptedAndRetrying
        }),
        card.name == snapshot.name,
        card.shows_rate <==> snapshot.tokens_per_second.positive(),
{
}

/// Issues are told exactly if there are some, and how many there are can be read.
pub proof fn issues_are_counted_on_the_card(
    snapshot: &AgentControllerSnapshot,
    card: AgentCard,
    issue: AgentIssueView,
)
    requires
        call_ensures(view_agent_card, (snapshot,), card),
    ensures
        snapshot.issues@.contains(issue) ==> card.issues_label is Some,
        card.issues_label matches Some(label) ==> {
            let count = decimal(snapshot.issues@.len());
            &&& label@.take(count.len() as int) == count
            &&& number_read(count) == snapshot.issues@.len()
        },
{
    if let Some(label) = card.issues_label {
        let count = decimal(snapshot.issues@.len());
        assert(label@.take(count.len() as int) =~= count);
        written_numbers_can_be_read(snapshot.issues@.len());
    }
}

proof fn lemma_written_without_slash(number: int)
    ensures
        forall|i: int| 0 <= i < signed_decimal(number).len() ==> #[trigger] signed_decimal(number)[i]
            != '/',
{
    reveal_strlit("-");
    let magnitude = if number < 0 {
        (-number) as nat
    } else {
        number as nat
    };
    written_numbers_can_be_read(magnitude);
    let text = signed_decimal(number);
    assert forall|i: int| 0 <= i < text.len() implies #[trigger] text[i] != '/' by {
        if number < 0 {
            if i > 0 {
                assert(text[i] == decimal(magnitude)[i - 1]);
            }
        } else {
            assert(text[i] == decimal(magnitude)[i]);
        }
    };
}

proof fn lemma_split_at_slash(
    left: Seq<char>,
    left_rest: Seq<char>,
    right: Seq<char>,
    right_rest: Seq<char>,
)
    requires
        left + "/"@ + left_rest == right + "/"@ + right_rest,
        forall|i: int| 0 <= i < left.len() ==> #[trigger] left[i] != '/',
        forall|i: int| 0 <= i < right.len() ==> #[trigger] right[i] != '/',
    ensures
        left == right,
        left_rest == right_rest,
{
    reveal_strlit("/");
    let first = left + "/"@ + left_rest;
    let second = right + "/"@ + right_rest;
    assert(first[left.len() as int] == '/');
    assert(second[right.len() as int] == '/');
    if left.len() < right.len() {
        assert(second[left.len() as int] == right[left.len() as int]);
    }
    if right.len() < left.len() {
        assert(first[right.len() as int] == left[right.len() as int]);
    }
    assert(first.take(left.len() as int) =~= left);
    assert(second.take(right.len() as int) =~= right);
    assert(first.skip(left.len() as int + 1) =~= left_rest);
    assert(second.skip(right.len() as int + 1) =~= right_rest);
}

/// Numbers that are written alike are the same.
proof fn lemma_written_alike(left: int, right: int)
    requires
        signed_decimal(left) == signed_decimal(right),
    ensures
        left == right,
{
    a_minus_sign_marks_negative_numbers(left);
    a_minus_sign_marks_negative_numbers(right);
}

/// The slots of an agent can be read off its card: agents whose slots are shown alike
/// have as many busy slots, as many slots, and are to have as many.
pub proof fn slots_can_be_read_off_the_card(
    left: &AgentControllerSnapshot,
    left_card: AgentCard,
    right: &AgentControllerSnapshot,
    right_card: AgentCard,
)
    requires
        call_ensures(view_agent_card, (left,), left_card),
        call_ensures(view_agent_card, (right,), right_card),
    ensures
        left_card.slots_label@ == right_card.slots_label@ <==> left.slots_processing
            == right.slots_processing && left.slots_total == right.slots_total
            && left.desired_slots_total == right.desired_slots_total,
{
    if left_card.slots_label@ == right_card.slots_label@ {
        let left_busy = signed_decimal(left.slots_processing as int);
        let left_all = signed_decimal(left.slots_total as int);
        let left_wanted = signed_decimal(left.desired_slots_total as int);
        let right_busy = signed_decimal(right.slots_processing as int);
        let right_all = signed_decimal(right.slots_total as int);
        let right_wanted = signed_decimal(right.desired_slots_total as int);
        lemma_written_without_slash(left.slots_processing as int);
        lemma_written_without_slash(right.slots_processing as int);
        lemma_written_without_slash(left.slots_total as int);
        lemma_written_without_slash(right.slots_total as int);
        assert(left_card.slots_label@ =~= left_busy + "/"@ + (left_all + "/"@ + left_wanted));
        assert(right_card.slots_label@ =~= right_busy + "/"@ + (right_all + "/"@ + right_wanted));
        lemma_split_at_slash(
            left_busy,
            left_all + "/"@ + left_wanted,
            right_busy,
            right_all + "/"@ + right_wanted,
        );
        lemma_split_at_slash(left_all, left_wanted, right_all, right_wanted);
        lemma_written_alike(left.slots_processing as int, right.slots_processing as int);
        lemma_written_alike(left.slots_total as int, right.slots_total as int);
        lemma_written_alike(left.desired_slots_total as int, right.desired_slots_total as int);
    }
}

/// The busy slots come first on the card, then the slots that are there, then those that
/// there are to be.
pub proof fn busy_slots_come_first_on_the_card(snapshot: &AgentControllerSnapshot, card: AgentCard)
    requires
        call_ensures(view_agent_card, (snapshot,), card),
    ensures
        ({
            let busy = signed_decimal(snapshot.slots_processing as int);
            let wanted = signed_decimal(snapshot.desired_slots_total as int);
            let text = card.slots_label@;
            &&& text.take(busy.len() as int) == busy
            &&& text.skip(text.len() - wanted.len()) == wanted
        }),
{
    let busy = signed_decimal(snapshot.slots_processing as int);
    let wanted = signed_decimal(snapshot.desired_slots_total as int);
    let text = card.slots_label@;
    assert(text.take(busy.len() as int) =~= busy);
    assert(text.skip(text.len() - wanted.len()) =~= wanted);
}

/// What is shown of a path is its file name, where it has one, and else all of it.
pub proof fn a_path_is_shown_by_its_file_name(path: &str, name: Option<String>, label: String)
    requires
        call_ensures(part_or_path, (path, name), label),
    ensures
        name matches Some(name) ==> label@ == name@,
        name is None ==> label@ == path@,
{
}

proof fn lemma_last_part(directory: Seq<char>, name: Seq<char>)
    requires
        forall|i: int| 0 <= i < name.len() ==> #[trigger] name[i] != '/',
    ensures
        last_part(directory + seq!['/'] + name) == name,
    decreases name.len(),
{
    let path = directory + seq!['/'] + name;
    if name.len() == 0 {
        assert(path.last() == '/');
        assert(last_part(path) =~= name);
    } else {
        let shorter = name.drop_last();
        assert forall|i: int| 0 <= i < shorter.len() implies #[trigger] shorter[i] != '/' by {
            assert(shorter[i] == name[i]);
        };
        lemma_last_part(directory, shorter);
        assert(path.drop_last() =~= directory + seq!['/'] + shorter);
        assert(path.last() == name[name.len() - 1]);
        assert(last_part(path) =~= name);
    }
}

/// A model that lies in some directory is shown by the name of its file, once it is
/// downloaded.
pub proof fn a_model_is_shown_by_the_name_of_its_file(
    snapshot: &AgentControllerSnapshot,
    card: AgentCard,
    directory: Seq<char>,
    name: Seq<char>,
)
    requires
        call_ensures(view_agent_card, (snapshot,), card),
        snapshot.model_path matches Some(path) && path@ == directory + seq!['/'] + name
            && is_portable_path(path@),
        name.len() > 0,
        forall|i: int| 0 <= i < name.len() ==> #[trigger] name[i] != '/',
        name != "."@,
        name != ".."@,
        snapshot.download_current >= snapshot.download_total,
    ensures
        card.model_label matches Some(label) && label@ == name,
{
    let path = snapshot.model_path->Some_0@;
    reveal_strlit(".");
    lemma_last_part(directory, name);
    assert(path.last() == name[name.len() - 1]);
    if path.last() == '.' && path[path.len() - 2] == '/' {
        if name.len() >= 2 {
            assert(path[path.len() - 2] == name[name.len() - 2]);
        } else {
            assert(name =~= "."@);
        }
    }
    assert(trimmed_path(path) == path);
    assert(path.len() >= 2);
}

} // verus!
