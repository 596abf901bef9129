//! What can go wrong on an agent, what puts it right again, and sets of such issues.
use vstd::prelude::*;

verus! {

/// The path of a model that an issue is about.
#[derive(Debug, PartialEq, Eq, Hash)]
pub struct ModelPath {
    pub model_path: String,
}

/// Why the slot with the given index could not be started.
#[derive(Debug, PartialEq, Eq, Hash)]
pub struct SlotCannotStartParams {
    pub error: String,
    pub slot_index: u32,
}

/// Something that keeps an agent from serving requests.
#[derive(Debug, PartialEq, Eq, Hash)]
pub enum AgentIssue {
    ModelCannotBeLoaded(ModelPath),
    ModelFileDoesNotExist(ModelPath),
    SlotCannotStart(SlotCannotStartParams),
    UnableToFindChatTemplate(ModelPath),
}

/// An issue by its content.
pub ghost enum AgentIssueView {
    ModelCannotBeLoaded(Seq<char>),
    ModelFileDoesNotExist(Seq<char>),
    SlotCannotStart(Seq<char>, u32),
    UnableToFindChatTemplate(Seq<char>),
}

impl View for AgentIssue {
    type V = AgentIssueView;

    open spec fn view(&self) -> AgentIssueView {
        match self {
            AgentIssue::ModelCannotBeLoaded(params) => AgentIssueView::ModelCannotBeLoaded(
                params.model_path@,
            ),
            AgentIssue::ModelFileDoesNotExist(params) => AgentIssueView::ModelFileDoesNotExist(
                params.model_path@,
            ),
            AgentIssue::SlotCannotStart(params) => AgentIssueView::SlotCannotStart(
                params.error@,
                params.slot_index,
            ),
            AgentIssue::UnableToFindChatTemplate(params) => AgentIssueView::UnableToFindChatTemplate(
                params.model_path@,
            ),
        }
    }
}

impl Clone for ModelPath {
    fn clone(&self) -> (copy: Self)
        ensures
            copy == *self,
    {
        ModelPath { model_path: self.model_path.clone() }
    }
}

impl Clone for SlotCannotStartParams {
    fn clone(&self) -> (copy: Self)
        ensures
            copy == *self,
    {
        SlotCannotStartParams { error: self.error.clone(), slot_index: self.slot_index }
    }
}

impl Clone for AgentIssue {
    fn clone(&self) -> (copy: Self)
        ensures
            copy == *self,
    {
        match self {
            AgentIssue::ModelCannotBeLoaded(params) => AgentIssue::ModelCannotBeLoaded(
                params.clone(),
            ),
            AgentIssue::ModelFileDoesNotExist(params) => AgentIssue::ModelFileDoesNotExist(
                params.clone(),
            ),
            AgentIssue::SlotCannotStart(params) => AgentIssue::SlotCannotStart(params.clone()),
            AgentIssue::UnableToFindChatTemplate(params) => AgentIssue::UnableToFindChatTemplate(
                params.clone(),
            ),
        }
    }
}

impl AgentIssue {
    /// Whether the two issues have the same content.
    pub fn same_as(&self, other: &AgentIssue) -> (same: bool)
        ensures
            same == (self@ == other@),
    {
        match (self, other) {
            (
                AgentIssue::ModelCannotBeLoaded(left),
                AgentIssue::ModelCannotBeLoaded(right),
            ) => left.model_path == right.model_path,
            (
                AgentIssue::ModelFileDoesNotExist(left),
                AgentIssue::ModelFileDoesNotExist(right),
            ) => left.model_path == right.model_path,
            (AgentIssue::SlotCannotStart(left), AgentIssue::SlotCannotStart(right)) => left.error
                == right.error && left.slot_index == right.slot_index,
            (
                AgentIssue::UnableToFindChatTemplate(left),
                AgentIssue::UnableToFindChatTemplate(right),
            ) => left.model_path == right.model_path,
            _ => false,
        }
    }

    fn rank(&self) -> (rank: u8)
        ensures
            rank == self@.rank(),
    {
        match self {
            AgentIssue::ModelCannotBeLoaded(_) => 0,
            AgentIssue::ModelFileDoesNotExist(_) => 1,
            AgentIssue::SlotCannotStart(_) => 2,
            AgentIssue::UnableToFindChatTemplate(_) => 3,
        }
    }

    fn subject(&self) -> (subject: &String)
        ensures
            subject@ == self@.subject(),
    {
        match self {
            AgentIssue::ModelCannotBeLoaded(params) => &params.model_path,
            AgentIssue::ModelFileDoesNotExist(params) => &params.model_path,
            AgentIssue::SlotCannotStart(params) => &params.error,
            AgentIssue::UnableToFindChatTemplate(params) => &params.model_path,
        }
    }

    fn slot(&self) -> (slot: u32)
        ensures
            slot == self@.slot(),
    {
        match self {
            AgentIssue::SlotCannotStart(params) => params.slot_index,
            _ => 0,
        }
    }

    /// Whether the issue stands before the other.
    pub fn is_before(&self, other: &AgentIssue) -> (before: bool)
        ensures
            before == self@.before(other@),
    {
        if self.rank() != other.rank() {
            return self.rank() < other.rank();
        }
        if *self.subject() == *other.subject() {
            proof {
                lemma_text_order(self@.subject(), self@.subject(), self@.subject());
            }
            return self.slot() < other.slot();
        }
        is_text_before(self.subject().as_str(), other.subject().as_str())
    }
}

/// Something that happened on an agent and puts issues right.
#[derive(Debug, PartialEq, Eq, Hash)]
pub enum AgentIssueFix {
    /// The file of the model is there.
    ModelFileExists(ModelPath),
}

impl AgentIssueFix {
    /// Whether the fix puts the issue right: a model file that is there mends the
    /// issue that this very file was missing.
    pub open spec fn fixes(self, issue: AgentIssueView) -> bool {
        match self {
            AgentIssueFix::ModelFileExists(params) => issue
                == AgentIssueView::ModelFileDoesNotExist(params.model_path@),
        }
    }

    /// Whether the fix puts the issue right.
    pub fn can_fix(&self, issue: &AgentIssue) -> (fixed: bool)
        ensures
            fixed == self.fixes(issue@),
    {
        match (self, issue) {
            (
                AgentIssueFix::ModelFileExists(fixed),
                AgentIssue::ModelFileDoesNotExist(missing),
            ) => fixed.model_path == missing.model_path,
            _ => false,
        }
    }
}

/// Whether the texts agree on their first `place` characters, after which `left` has
/// ended or has the lesser character.
pub open spec fn falls_behind_at(left: Seq<char>, right: Seq<char>, place: int) -> bool {
    &&& 0 <= place <= left.len()
    &&& place < right.len()
    &&& left.take(place) == right.take(place)
    &&& place < left.len() ==> left[place] < right[place]
}

/// Whether `left` stands before `right` in the order of a dictionary, in which the
/// characters have the order of their code points.
pub open spec fn text_before(left: Seq<char>, right: Seq<char>) -> bool {
    exists|place: int| #[trigger] falls_behind_at(left, right, place)
}

/// Two texts are equal up to some place, at which one of them ends or they differ.
proof fn lemma_texts_are_ordered(left: Seq<char>, right: Seq<char>, place: int)
    requires
        0 <= place <= left.len(),
        place <= right.len(),
        left.take(place) == right.take(place),
    ensures
        left == right || text_before(left, right) || text_before(right, left),
    decreases left.len() - place,
{
    if place == left.len() && place == right.len() {
        assert(left.take(place) =~= left);
        assert(right.take(place) =~= right);
    } else if place == left.len() {
        assert(falls_behind_at(left, right, place));
    } else if place == right.len() {
        assert(falls_behind_at(right, left, place));
    } else if left[place] < right[place] {
        assert(falls_behind_at(left, right, place));
    } else if right[place] < left[place] {
        assert(falls_behind_at(right, left, place));
    } else {
        assert(left.take(place + 1) =~= left.take(place).push(left[place]));
        assert(right.take(place + 1) =~= right.take(place).push(right[place]));
        lemma_texts_are_ordered(left, right, place + 1);
    }
}

proof fn lemma_text_order(left: Seq<char>, middle: Seq<char>, right: Seq<char>)
    ensures
        !text_before(left, left),
        text_before(left, middle) && text_before(middle, right) ==> text_before(left, right),
{
    if text_before(left, left) {
        let place = choose|place: int| #[trigger] falls_behind_at(left, left, place);
        assert(falls_behind_at(left, left, place));
    }
    if text_before(left, middle) && text_before(middle, right) {
        let first = choose|place: int| #[trigger] falls_behind_at(left, middle, place);
        let second = choose|place: int| #[trigger] falls_behind_at(middle, right, place);
        let place = if first < second {
            first
        } else {
            second
        };
        assert(left.take(place) =~= left.take(first).take(place));
        assert(middle.take(place) =~= middle.take(first).take(place));
        assert(middle.take(place) =~= middle.take(second).take(place));
        assert(right.take(place) =~= right.take(second).take(place));
        if first < second {
            assert(middle.take(second)[place] == middle[place]);
            assert(right.take(second)[place] == right[place]);
        }
        if second < first {
            assert(left.take(first)[place] == left[place]);
            assert(middle.take(first)[place] == middle[place]);
        }
        assert(falls_behind_at(left, right, place));
    }
}

/// Whether `left` stands before `right` in the order of a dictionary.
fn is_text_before(left: &str, right: &str) -> (before: bool)
    ensures
        before == text_before(left@, right@),
{
    let left_len: usize = left.unicode_len();
    let right_len: usize = right.unicode_len();
    let mut place: usize = 0;
    assert(left@.take(0) =~= right@.take(0));
    while place < left_len && place < right_len
        invariant
            left_len == left@.len(),
            right_len == right@.len(),
            place <= left_len,
            place <= right_len,
            left@.take(place as int) == right@.take(place as int),
        decreases left_len - place,
    {
        let left_character = left.get_char(place);
        let right_character = right.get_char(place);
        if left_character < right_character {
            assert(falls_behind_at(left@, right@, place as int));
            return true;
        }
        if right_character < left_character {
            proof {
                assert(falls_behind_at(right@, left@, place as int));
                lemma_text_order(left@, right@, left@);
            }
            return false;
        }
        proof {
            assert(left@.take(place + 1) =~= left@.take(place as int).push(left_character));
            assert(right@.take(place + 1) =~= right@.take(place as int).push(right_character));
        }
        place = place + 1;
    }
    proof {
        if place < right_len {
            assert(falls_behind_at(left@, right@, place as int));
        } else if place < left_len {
            assert(falls_behind_at(right@, left@, place as int));
            lemma_text_order(left@, right@, left@);
        } else {
            assert(left@.take(place as int) =~= left@);
            assert(right@.take(place as int) =~= right@);
            lemma_text_order(left@, left@, left@);
        }
    }
    place < right_len
}

impl AgentIssueView {
    /// The place of the kind of issue among the kinds.
    pub open spec fn rank(self) -> int {
        match self {
            AgentIssueView::ModelCannotBeLoaded(_) => 0,
            AgentIssueView::ModelFileDoesNotExist(_) => 1,
            AgentIssueView::SlotCannotStart(_, _) => 2,
            AgentIssueView::UnableToFindChatTemplate(_) => 3,
        }
    }

    /// What the issue says.
    pub open spec fn subject(self) -> Seq<char> {
        match self {
            AgentIssueView::ModelCannotBeLoaded(model_path) => model_path,
            AgentIssueView::ModelFileDoesNotExist(model_path) => model_path,
            AgentIssueView::SlotCannotStart(error, _) => error,
            AgentIssueView::UnableToFindChatTemplate(model_path) => model_path,
        }
    }

    /// The slot that the issue is about, if it is about one.
    pub open spec fn slot(self) -> int {
        match self {
            AgentIssueView::SlotCannotStart(_, slot_index) => slot_index as int,
            _ => 0,
        }
    }

    /// Whether the issue stands before `other`: issues are ordered by their kind,
    /// then by what they say, then by their slot.
    pub open spec fn before(self, other: AgentIssueView) -> bool {
        ||| self.rank() < other.rank()
        ||| self.rank() == other.rank() && text_before(self.subject(), other.subject())
        ||| self.rank() == other.rank() && self.subject() == other.subject() && self.slot()
            < other.slot()
    }
}

/// Issues have an order: none stands before itself, and of two that differ one
/// stands before the other, and before whatever that stands before.
pub proof fn issues_are_ordered(
    left: AgentIssueView,
    middle: AgentIssueView,
    right: AgentIssueView,
)
    ensures
        !left.before(left),
        left == middle || left.before(middle) || middle.before(left),
        left.before(middle) && middle.before(right) ==> left.before(right),
{
    lemma_text_order(left.subject(), middle.subject(), right.subject());
    assert(left.subject().take(0) =~= middle.subject().take(0));
    lemma_texts_are_ordered(left.subject(), middle.subject(), 0);
}

/// Whether the issues of the list are in their order, each once.
pub open spec fn is_sorted(issues: Seq<AgentIssue>) -> bool {
    forall|i: int, j: int|
        #![trigger issues[i], issues[j]]
        0 <= i < j < issues.len() ==> issues[i]@.before(issues[j]@)
}

proof fn lemma_sorted_differ(issues: Seq<AgentIssue>)
    requires
        is_sorted(issues),
    ensures
        all_different(issues),
{
    assert forall|i: int, j: int| 0 <= i < j < issues.len() implies (#[trigger] issues[i])@ != (
    #[trigger] issues[j])@ by {
        issues_are_ordered(issues[i]@, issues[j]@, issues[j]@);
    };
}

/// There is one list of given issues that is in order.
pub proof fn lemma_one_sorted_list(left: Seq<AgentIssue>, right: Seq<AgentIssue>)
    requires
        is_sorted(left),
        is_sorted(right),
        issues_in(left) == issues_in(right),
    ensures
        left.len() == right.len(),
        forall|i: int| 0 <= i < left.len() ==> (#[trigger] left[i])@ == right[i]@,
    decreases left.len(),
{
    lemma_sorted_differ(left);
    lemma_sorted_differ(right);
    lemma_different_issues_count(left);
    lemma_different_issues_count(right);
    if left.len() > 0 {
        let last = left.len() - 1;
        lemma_issues_in(right, left[last]@);
        lemma_issues_in(left, left[last]@);
        lemma_issues_in(left, right[last]@);
        lemma_issues_in(right, right[last]@);
        assert(issues_in(right).contains(left[last]@));
        assert(issues_in(left).contains(right[last]@));
        let i = choose|i: int| 0 <= i < right.len() && (#[trigger] right[i])@ == left[last]@;
        let j = choose|j: int| 0 <= j < left.len() && (#[trigger] left[j])@ == right[last]@;
        issues_are_ordered(left[last]@, right[last]@, left[last]@);
        if i < last && j < last {
            assert(right[i]@.before(right[last]@));
            assert(left[j]@.before(left[last]@));
        }
        assert(left[last]@ == right[last]@);
        let shorter = left.drop_last();
        let other = right.drop_last();
        assert forall|issue: AgentIssueView|
            issues_in(shorter).contains(issue) == issues_in(other).contains(issue) by {
            lemma_issues_in(left, issue);
            lemma_issues_in(right, issue);
            lemma_issues_in(shorter, issue);
            lemma_issues_in(other, issue);
            if issues_in(shorter).contains(issue) {
                let k = choose|k: int| 0 <= k < shorter.len() && (#[trigger] shorter[k])@ == issue;
                assert(left[k]@ == issue);
                assert(left[k]@ != left[last]@);
                assert(issues_in(right).contains(issue));
                let m = choose|m: int| 0 <= m < right.len() && (#[trigger] right[m])@ == issue;
                assert(other[m]@ == issue);
            }
            if issues_in(other).contains(issue) {
                let k = choose|k: int| 0 <= k < other.len() && (#[trigger] other[k])@ == issue;
                assert(right[k]@ == issue);
                assert(right[k]@ != right[last]@);
                assert(issues_in(left).contains(issue));
                let m = choose|m: int| 0 <= m < left.len() && (#[trigger] left[m])@ == issue;
                assert(shorter[m]@ == issue);
            }
        };
        assert(issues_in(shorter) =~= issues_in(other));
        lemma_one_sorted_list(shorter, other);
        assert forall|k: int| 0 <= k < left.len() implies (#[trigger] left[k])@ == right[k]@ by {
            if k < last {
                assert(shorter[k]@ == other[k]@);
            }
        };
    }
}

/// The contents of a list of issues, without regard to order.
pub open spec fn issues_in(issues: Seq<AgentIssue>) -> Set<AgentIssueView> {
    issues.map_values(|issue: AgentIssue| issue@).to_set()
}

/// Whether no two issues of the list have the same content.
pub open spec fn all_different(issues: Seq<AgentIssue>) -> bool {
    forall|i: int, j: int|
        0 <= i < j < issues.len() ==> (#[trigger] issues[i])@ != (#[trigger] issues[j])@
}

/// An issue is among the issues of a list exactly if it stands at some place of it.
pub proof fn lemma_issues_in(issues: Seq<AgentIssue>, issue: AgentIssueView)
    ensures
        issues_in(issues).contains(issue) <==> exists|i: int|
            0 <= i < issues.len() && (#[trigger] issues[i])@ == issue,
{
    let views = issues.map_values(|issue: AgentIssue| issue@);
    if issues_in(issues).contains(issue) {
        let i = choose|i: int| 0 <= i < views.len() && views[i] == issue;
        assert(issues[i]@ == issue);
    }
    if exists|i: int| 0 <= i < issues.len() && (#[trigger] issues[i])@ == issue {
        let i = choose|i: int| 0 <= i < issues.len() && (#[trigger] issues[i])@ == issue;
        assert(views[i] == issue);
    }
}

/// The issues that an agent reports: no issue occurs twice, and they are kept in
/// their order.
#[derive(Debug)]
pub struct AgentIssues {
    items: Vec<AgentIssue>,
}

impl View for AgentIssues {
    type V = Set<AgentIssueView>;

    closed spec fn view(&self) -> Set<AgentIssueView> {
        issues_in(self.items@)
    }
}

impl AgentIssues {
    #[verifier::type_invariant]
    spec fn well_formed(self) -> bool {
        is_sorted(self.items@)
    }

    /// No issues.
    pub fn new() -> (issues: AgentIssues)
        ensures
            issues@ == Set::<AgentIssueView>::empty(),
    {
        let issues = AgentIssues { items: Vec::new() };
        assert(issues@ =~= Set::<AgentIssueView>::empty());
        issues
    }

    /// Whether the issue is among them.
    pub fn contains(&self, issue: &AgentIssue) -> (found: bool)
        ensures
            found == self@.contains(issue@),
    {
        let mut i: usize = 0;
        while i < self.items.len()
            invariant
                i <= self.items.len(),
                forall|j: int| 0 <= j < i ==> (#[trigger] self.items@[j])@ != issue@,
            decreases self.items.len() - i,
        {
            if self.items[i].same_as(issue) {
                proof {
                    lemma_issues_in(self.items@, issue@);
                }
                return true;
            }
            i = i + 1;
        }
        proof {
            lemma_issues_in(self.items@, issue@);
        }
        false
    }

    /// Adds the issue; says whether it was not there before.
    pub fn insert(&mut self, issue: AgentIssue) -> (inserted: bool)
        ensures
            final(self)@ == old(self)@.insert(issue@),
            inserted == !old(self)@.contains(issue@),
    {
        proof {
            use_type_invariant(&*self);
        }
        if self.contains(&issue) {
            assert(self@ =~= old(self)@.insert(issue@));
            return false;
        }
        let ghost view = issue@;
        let mut items: Vec<AgentIssue> = Vec::new();
        std::mem::swap(&mut items, &mut self.items);
        let ghost before = items@;
        let mut place: usize = 0;
        while place < items.len() && items[place].is_before(&issue)
            invariant
                items@ == before,
                place <= items@.len(),
                forall|j: int| 0 <= j < place ==> (#[trigger] items@[j])@.before(issue@),
            decreases items.len() - place,
        {
            place = place + 1;
        }
        proof {
            lemma_issues_in(items@, view);
            if place < items@.len() {
                issues_are_ordered(items@[place as int]@, view, view);
            }
        }
        items.insert(place, issue);
        proof {
            assert forall|i: int, j: int|
                #![trigger items@[i], items@[j]]
                0 <= i < j < items@.len() implies items@[i]@.before(items@[j]@) by {
                if i == place {
                    assert(items@[j] == before[j - 1]);
                    if j - 1 > place {
                        assert(before[place as int]@.before(before[j - 1]@));
                        issues_are_ordered(view, before[place as int]@, before[j - 1]@);
                    }
                } else if j == place {
                    assert(items@[i] == before[i]);
                } else {
                    let left = if i < place {
                        i
                    } else {
                        i - 1
                    };
                    let right = if j < place {
                        j
                    } else {
                        j - 1
                    };
                    assert(items@[i] == before[left]);
                    assert(items@[j] == before[right]);
                    assert(before[left]@.before(before[right]@));
                }
            };
        }
        self.items = items;
        proof {
            assert forall|other: AgentIssueView|
                issues_in(self.items@).contains(other) == issues_in(before).insert(view).contains(
                    other,
                ) by {
                lemma_issues_in(self.items@, other);
                lemma_issues_in(before, other);
                if other == view {
                    assert(self.items@[place as int]@ == view);
                }
                if exists|i: int| 0 <= i < before.len() && (#[trigger] before[i])@ == other {
                    let i = choose|i: int| 0 <= i < before.len() && (#[trigger] before[i])@
                        == other;
                    if i < place {
                        assert(self.items@[i]@ == other);
                    } else {
                        assert(self.items@[i + 1]@ == other);
                    }
                }
                if exists|i: int|
                    0 <= i < self.items@.len() && (#[trigger] self.items@[i])@ == other {
                    let i = choose|i: int|
                        0 <= i < self.items@.len() && (#[trigger] self.items@[i])@ == other;
                    if i < place {
                        assert(before[i]@ == other);
                    } else if i > place {
                        assert(before[i - 1]@ == other);
                    }
                }
            };
            assert(self@ =~= old(self)@.insert(view));
        }
        true
    }

    /// The issues of a list, each once.
    pub fn from_list(list: Vec<AgentIssue>) -> (issues: AgentIssues)
        ensures
            issues@ == issues_in(list@),
    {
        let mut issues = AgentIssues::new();
        let mut list = list;
        let ghost whole = list@;
        assert(whole.subrange(whole.len() as int, whole.len() as int) =~= Seq::<
            AgentIssue,
        >::empty());
        assert(issues@ =~= issues_in(Seq::<AgentIssue>::empty()));
        while list.len() > 0
            invariant
                list@.len() <= whole.len(),
                list@ == whole.subrange(0, list@.len() as int),
                issues@ == issues_in(whole.subrange(list@.len() as int, whole.len() as int)),
            decreases list.len(),
        {
            let ghost rest = whole.subrange(list@.len() as int, whole.len() as int);
            let ghost before = issues@;
            let ghost n = list@.len() - 1;
            if let Some(issue) = list.pop() {
                let ghost view = issue@;
                issues.insert(issue);
                proof {
                    let longer = whole.subrange(n, whole.len() as int);
                    assert(longer[0] == whole[n]);
                    assert(rest =~= longer.subrange(1, longer.len() as int));
                    assert forall|other: AgentIssueView|
                        issues@.contains(other) == issues_in(longer).contains(other) by {
                        lemma_issues_in(rest, other);
                        lemma_issues_in(longer, other);
                        if exists|i: int| 0 <= i < rest.len() && (#[trigger] rest[i])@ == other {
                            let i = choose|i: int|
                                0 <= i < rest.len() && (#[trigger] rest[i])@ == other;
                            assert(longer[i + 1]@ == other);
                        }
                        if exists|i: int|
                            0 <= i < longer.len() && (#[trigger] longer[i])@ == other {
                            let i = choose|i: int|
                                0 <= i < longer.len() && (#[trigger] longer[i])@ == other;
                            if i > 0 {
                                assert(rest[i - 1]@ == other);
                            }
                        }
                    };
                    assert(issues@ =~= issues_in(longer));
                    assert(list@ =~= whole.subrange(0, n));
                }
            }
        }
        assert(whole.subrange(0, whole.len() as int) =~= whole);
        issues
    }

    /// The issues as a list, in their order.
    pub fn to_list(&self) -> (list: Vec<AgentIssue>)
        ensures
            issues_in(list@) == self@,
            is_sorted(list@),
            list@.len() == self@.len(),
    {
        proof {
            use_type_invariant(self);
        }
        let mut list: Vec<AgentIssue> = Vec::new();
        let mut i: usize = 0;
        while i < self.items.len()
            invariant
                i <= self.items.len(),
                list@ == self.items@.subrange(0, i as int),
            decreases self.items.len() - i,
        {
            list.push(self.items[i].clone());
            i = i + 1;
            assert(list@ =~= self.items@.subrange(0, i as int));
        }
        assert(list@ =~= self.items@);
        proof {
            lemma_sorted_differ(list@);
            lemma_different_issues_count(list@);
        }
        list
    }

    /// How many issues there are.
    pub fn len(&self) -> (count: usize)
        ensures
            count == self@.len(),
            self@.finite(),
    {
        proof {
            use_type_invariant(self);
            lemma_sorted_differ(self.items@);
            lemma_different_issues_count(self.items@);
        }
        self.items.len()
    }

    /// Whether there are no issues.
    pub fn is_empty(&self) -> (empty: bool)
        ensures
            empty == (self@ == Set::<AgentIssueView>::empty()),
    {
        let empty = self.items.len() == 0;
        proof {
            if empty {
                assert(self@ =~= Set::<AgentIssueView>::empty());
            } else {
                lemma_issues_in(self.items@, self.items@[0]@);
                assert(self@.contains(self.items@[0]@));
            }
        }
        empty
    }

    fn within(&self, other: &AgentIssues) -> (within: bool)
        ensures
            within == self@.subset_of(other@),
    {
        let mut i: usize = 0;
        while i < self.items.len()
            invariant
                i <= self.items.len(),
                forall|j: int|
                    0 <= j < i ==> other@.contains((#[trigger] self.items@[j])@),
            decreases self.items.len() - i,
        {
            if !other.contains(&self.items[i]) {
                proof {
                    lemma_issues_in(self.items@, self.items@[i as int]@);
                    assert(self@.contains(self.items@[i as int]@));
                }
                return false;
            }
            i = i + 1;
        }
        proof {
            assert forall|issue: AgentIssueView| self@.contains(issue) implies other@.contains(
                issue,
            ) by {
                lemma_issues_in(self.items@, issue);
            };
        }
        true
    }

    /// Whether the two sets hold the same issues.
    pub fn same_as(&self, other: &AgentIssues) -> (same: bool)
        ensures
            same == (self@ == other@),
    {
        let same = self.within(other) && other.within(self);
        proof {
            if same {
                assert(self@ =~= other@);
            }
        }
        same
    }
}

impl Clone for AgentIssues {
    fn clone(&self) -> (copy: Self)
        ensures
            copy@ == self@,
    {
        AgentIssues::from_list(self.to_list())
    }
}

impl Default for AgentIssues {
    fn default() -> (issues: Self)
        ensures
            issues@ == Set::<AgentIssueView>::empty(),
    {
        AgentIssues::new()
    }
}

/// A list of different issues holds as many of them as it has places.
proof fn lemma_different_issues_count(issues: Seq<AgentIssue>)
    requires
        all_different(issues),
    ensures
        issues_in(issues).finite(),
        issues_in(issues).len() == issues.len(),
{
    let views = issues.map_values(|issue: AgentIssue| issue@);
    assert(views.no_duplicates()) by {
        assert forall|i: int, j: int| 0 <= i < views.len() && 0 <= j < views.len() && i != j
            implies views[i] != views[j] by {
            assert(views[i] == issues[i]@);
            assert(views[j] == issues[j]@);
        };
    };
    views.unique_seq_to_set();
    views.lemma_cardinality_of_set();
}

/// That the file of a model is there mends nothing but that this very file was
/// missing.
pub proof fn a_file_that_is_there_is_not_missing(
    fix: &AgentIssueFix,
    issue: &AgentIssue,
    fixed: bool,
)
    requires
        call_ensures(AgentIssueFix::can_fix, (fix, issue), fixed),
    ensures
        fixed <==> (issue matches AgentIssue::ModelFileDoesNotExist(missing) && match *fix {
            AgentIssueFix::ModelFileExists(found) => found.model_path@ == missing.model_path@,
        }),
{
}

/// Issues about the same thing are ordered by what went wrong: a model that cannot be
/// loaded, a missing file, a slot that cannot start, a missing chat template.
pub proof fn issues_are_ordered_by_what_went_wrong(
    first: Seq<char>,
    second: Seq<char>,
    third: Seq<char>,
    fourth: Seq<char>,
    slot_index: u32,
    other_slot_index: u32,
)
    ensures
        AgentIssueView::ModelCannotBeLoaded(first).before(
            AgentIssueView::ModelFileDoesNotExist(second),
        ),
        AgentIssueView::ModelFileDoesNotExist(second).before(
            AgentIssueView::SlotCannotStart(third, slot_index),
        ),
        AgentIssueView::SlotCannotStart(third, slot_index).before(
            AgentIssueView::UnableToFindChatTemplate(fourth),
        ),
        AgentIssueView::SlotCannotStart(third, slot_index).before(
            AgentIssueView::SlotCannotStart(third, other_slot_index),
        ) <==> slot_index < other_slot_index,
        AgentIssueView::ModelCannotBeLoaded(first).before(
            AgentIssueView::ModelCannotBeLoaded(second),
        ) <==> text_before(first, second),
{
    lemma_text_order(third, third, third);
}

/// A text stands before every longer text that begins with it, and of two texts that
/// go on differently the one with the lesser character stands before the other.
pub proof fn texts_are_ordered_as_in_a_dictionary(
    common: Seq<char>,
    left: char,
    left_rest: Seq<char>,
    right: char,
    right_rest: Seq<char>,
)
    ensures
        text_before(common, common + seq![right] + right_rest),
        left < right ==> text_before(
            common + seq![left] + left_rest,
            common + seq![right] + right_rest,
        ),
{
    let longer = common + seq![right] + right_rest;
    assert(common.take(common.len() as int) =~= longer.take(common.len() as int));
    assert(falls_behind_at(common, longer, common.len() as int));
    let lesser = common + seq![left] + left_rest;
    assert(lesser.take(common.len() as int) =~= longer.take(common.len() as int));
    assert(lesser[common.len() as int] == left);
    assert(longer[common.len() as int] == right);
    if left < right {
        assert(falls_behind_at(lesser, longer, common.len() as int));
    }
}

/// Two issues are the same exactly if they are of the same sort and say the same, about
/// the same slot where they are about one.
pub proof fn issues_are_told_apart_by_what_they_say(
    left: &AgentIssue,
    right: &AgentIssue,
    same: bool,
)
    requires
        call_ensures(AgentIssue::same_as, (left, right), same),
    ensures
        same == (match (*left, *right) {
            (
                AgentIssue::ModelCannotBeLoaded(left),
                AgentIssue::ModelCannotBeLoaded(right),
            ) => left.model_path@ == right.model_path@,
            (
                AgentIssue::ModelFileDoesNotExist(left),
                AgentIssue::ModelFileDoesNotExist(right),
            ) => left.model_path@ == right.model_path@,
            (AgentIssue::SlotCannotStart(left), AgentIssue::SlotCannotStart(right)) => left.error@
                == right.error@ && left.slot_index == right.slot_index,
            (
                AgentIssue::UnableToFindChatTemplate(left),
                AgentIssue::UnableToFindChatTemplate(right),
            ) => left.model_path@ == right.model_path@,
            _ => false,
        }),
{
}

/// An issue that was added is among the issues, which are otherwise those that were there;
/// and it is new exactly if it was not among them.
pub proof fn an_added_issue_is_found(
    issues: &mut AgentIssues,
    issue: AgentIssue,
    inserted: bool,
    asked: &AgentIssue,
    found: bool,
    found_before: bool,
    same: bool,
)
    requires
        call_ensures(AgentIssues::insert, (issues, issue), inserted),
        call_ensures(AgentIssues::contains, (&*old(issues), asked), found_before),
        call_ensures(AgentIssues::contains, (&*final(issues), asked), found),
        call_ensures(AgentIssue::same_as, (asked, &issue), same),
    ensures
        found <==> found_before || same,
        same ==> (inserted <==> !found_before),
{
}

/// The issues of a list are those that stand in it, and they are listed in their order,
/// each once.
pub proof fn listed_issues_are_those_of_the_set(
    list: Vec<AgentIssue>,
    issues: AgentIssues,
    listed: Vec<AgentIssue>,
    asked: &AgentIssue,
    found: bool,
    count: usize,
    i: int,
    j: int,
)
    requires
        call_ensures(AgentIssues::from_list, (list,), issues),
        call_ensures(AgentIssues::to_list, (&issues,), listed),
        call_ensures(AgentIssues::contains, (&issues, asked), found),
        call_ensures(AgentIssues::len, (&issues,), count),
    ensures
        found <==> exists|k: int| 0 <= k < list@.len() && (#[trigger] list@[k])@ == asked@,
        found <==> exists|k: int| 0 <= k < listed@.len() && (#[trigger] listed@[k])@ == asked@,
        0 <= i < j < listed@.len() ==> listed@[i]@.before(listed@[j]@),
        count == listed@.len(),
{
    lemma_issues_in(list@, asked@);
    lemma_issues_in(listed@, asked@);
}

/// Sets of issues are the same exactly if each issue of one is among the other; a set is
/// empty exactly if no issue is among it, and a copy holds the same issues.
pub proof fn sets_are_the_same_if_their_issues_are(
    left: &AgentIssues,
    right: &AgentIssues,
    same: bool,
    empty: bool,
    copy: AgentIssues,
    none: AgentIssues,
)
    requires
        call_ensures(AgentIssues::same_as, (left, right), same),
        call_ensures(AgentIssues::is_empty, (left,), empty),
        call_ensures(AgentIssues::clone, (left,), copy),
        call_ensures(AgentIssues::default, (), none),
    ensures
        same <==> forall|issue: AgentIssueView| #[trigger]
            left@.contains(issue) <==> right@.contains(issue),
        empty <==> forall|issue: AgentIssueView| !(#[trigger] left@.contains(issue)),
        forall|issue: AgentIssueView| #[trigger]
            copy@.contains(issue) <==> left@.contains(issue),
        forall|issue: AgentIssueView| !(#[trigger] none@.contains(issue)),
{
    if forall|issue: AgentIssueView| #[trigger]
        left@.contains(issue) <==> right@.contains(issue) {
        assert(left@ =~= right@);
    }
    if forall|issue: AgentIssueView| !(#[trigger] left@.contains(issue)) {
        assert(left@ =~= Set::<AgentIssueView>::empty());
    }
}

} // verus!
