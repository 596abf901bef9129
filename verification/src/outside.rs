//! What the library takes from the crates it stands on: their types, and their
//! functions with the contracts under which the library calls them.
//!
//! Handles that reach shared state (channels, maps, tokens) are only ever used
//! through exclusive references here, so a contract can say what a call did to
//! the handle that it was given.
use std::time::Instant;

use bytes::Bytes;
use dashmap::DashMap;
use dashmap::DashSet;
use tokio::sync::mpsc;
use tokio::sync::watch;
use tokio_util::sync::CancellationToken;
use vstd::prelude::*;

use crate::agent::llamacpp_arbiter_service::ContinuousBatchSchedulerCommand;
use crate::agent::management_socket_client_service::GenerationRequest;
use crate::messaging::agent_issue::AgentIssue;
use crate::messaging::agent_issue::AgentIssueFix;
use crate::messaging::agent_issue::AgentIssueView;
use crate::messaging::agent_issue::all_different;
use crate::messaging::agent_issue::issues_in;
use crate::messaging::messages::AgentDesiredState;
use crate::messaging::messages::AgentJsonRpcMessage;
use crate::messaging::messages::ManagementJsonRpcMessage;

verus! {

// Time.
#[verifier::external_type_specification]
#[verifier::external_body]
pub struct ExInstant(Instant);

/// Calls `std::time::Instant::now`. Nothing is claimed of the moment it returns.
#[verifier::external_body]
pub(crate) fn now() -> (moment: Instant) {
    Instant::now()
}

/// Calls `std::time::Instant::elapsed` and gives the duration in nanoseconds.
/// Nothing is claimed of the time that passed.
#[verifier::external_body]
pub(crate) fn elapsed_nanos(moment: &Instant) -> (nanos: u128) {
    moment.elapsed().as_nanos()
}

/// Whether `nanos` is what the clock said, in a call that was made, when it was asked
/// how long ago `moment` was.
pub closed spec fn is_clock_reading(moment: Instant, nanos: u128) -> bool {
    call_ensures(elapsed_nanos, (&moment,), nanos)
}

/// How long ago `moment` was, as the clock says in this call.
pub(crate) fn read_clock(moment: &Instant) -> (nanos: u128)
    ensures
        is_clock_reading(*moment, nanos),
{
    elapsed_nanos(moment)
}

// Update channels: `tokio::sync::watch` with the unit value.
#[verifier::external_type_specification]
#[verifier::external_body]
#[verifier::reject_recursive_types(T)]
pub struct ExWatchSender<T>(watch::Sender<T>);

#[verifier::external_type_specification]
#[verifier::external_body]
#[verifier::reject_recursive_types(T)]
pub struct ExWatchReceiver<T>(watch::Receiver<T>);

/// How many values have been sent through a sender.
pub uninterp spec fn updates_sent(sender: watch::Sender<()>) -> nat;

/// How many of the values of its sender a receiver counts as seen.
pub uninterp spec fn updates_seen(receiver: watch::Receiver<()>) -> nat;

/// Calls `tokio::sync::watch::channel` and keeps the sender, through which
/// nothing has been sent yet.
#[verifier::external_body]
pub(crate) fn update_channel() -> (sender: watch::Sender<()>)
    ensures
        updates_sent(sender) == 0,
{
    watch::channel(()).0
}

/// Calls `tokio::sync::watch::Sender::send_replace`, which sends one value and
/// wakes every receiver, also where there is none.
#[verifier::external_body]
pub(crate) fn send_update(sender: &mut watch::Sender<()>)
    ensures
        updates_sent(*final(sender)) == updates_sent(*old(sender)) + 1,
{
    sender.send_replace(())
}

/// Calls `tokio::sync::watch::Sender::subscribe`: the new receiver counts what
/// has been sent so far as seen.
#[verifier::external_body]
pub(crate) fn subscribe(sender: &watch::Sender<()>) -> (receiver: watch::Receiver<()>)
    ensures
        updates_seen(receiver) == updates_sent(*sender),
{
    sender.subscribe()
}

// Sets of issues: `dashmap::DashSet`. Issues are compared by their derived
// equality and hash, that is by their fields.
#[verifier::external_type_specification]
#[verifier::external_body]
#[verifier::reject_recursive_types(K)]
#[verifier::reject_recursive_types(S)]
pub struct ExDashSet<K, S>(DashSet<K, S>);

/// The issues that a set holds.
pub uninterp spec fn issue_set(issues: DashSet<AgentIssue>) -> Set<AgentIssueView>;

/// Calls `dashmap::DashSet::new`: the set is empty.
#[verifier::external_body]
pub(crate) fn issue_set_new() -> (issues: DashSet<AgentIssue>)
    ensures
        issue_set(issues) == Set::<AgentIssueView>::empty(),
{
    DashSet::new()
}

/// Calls `dashmap::DashSet::insert`: the issue is in the set afterwards, and the
/// result says whether it was not in it before.
#[verifier::external_body]
pub(crate) fn issue_set_insert(issues: &mut DashSet<AgentIssue>, issue: AgentIssue) -> (inserted:
    bool)
    ensures
        issue_set(*final(issues)) == issue_set(*old(issues)).insert(issue@),
        inserted == !issue_set(*old(issues)).contains(issue@),
{
    issues.insert(issue)
}

/// Calls `dashmap::DashSet::contains`.
#[verifier::external_body]
pub(crate) fn issue_set_contains(issues: &DashSet<AgentIssue>, issue: &AgentIssue) -> (found: bool)
    ensures
        found == issue_set(*issues).contains(issue@),
{
    issues.contains(issue)
}

/// Whether the set holds `size` issues.
pub open spec fn has_size(issues: Set<AgentIssueView>, size: nat) -> bool {
    issues.finite() && issues.len() == size
}

/// Calls `dashmap::DashSet::len`: how many issues the set holds, which are finitely many.
#[verifier::external_body]
pub(crate) fn issue_set_len(issues: &DashSet<AgentIssue>) -> (count: usize)
    ensures
        has_size(issue_set(*issues), count as nat),
{
    issues.len()
}

/// Calls `dashmap::DashSet::retain` with `AgentIssueFix::can_fix`: the issues
/// that the fix does not put right stay.
#[verifier::external_body]
pub(crate) fn issue_set_retain_unfixed(issues: &mut DashSet<AgentIssue>, fix: &AgentIssueFix)
    ensures
        issue_set(*final(issues)) == issue_set(*old(issues)).filter(
            |issue: AgentIssueView| !fix.fixes(issue),
        ),
{
    issues.retain(|issue| !fix.can_fix(issue))
}

/// Calls `dashmap::DashSet::clear`: nothing stays in the set.
#[verifier::external_body]
pub(crate) fn issue_set_clear(issues: &mut DashSet<AgentIssue>)
    ensures
        issue_set(*final(issues)) == Set::<AgentIssueView>::empty(),
{
    issues.clear()
}

/// Calls `dashmap::DashSet::iter` and copies the issues it walks over: every
/// issue of the set once, in an order of which nothing is claimed.
#[verifier::external_body]
pub(crate) fn issue_set_list(issues: &DashSet<AgentIssue>) -> (list: Vec<AgentIssue>)
    ensures
        issues_in(list@) == issue_set(*issues),
        all_different(list@),
{
    issues.iter().map(|issue| issue.key().clone()).collect()
}

// Numbers by name: `dashmap::DashMap` with strings as its keys.
#[verifier::external_type_specification]
#[verifier::external_body]
#[verifier::reject_recursive_types(K)]
#[verifier::reject_recursive_types(V)]
#[verifier::reject_recursive_types(S)]
pub struct ExDashMap<K, V, S>(DashMap<K, V, S>);

/// The number that a map holds under each of its names.
pub uninterp spec fn number_map(map: DashMap<String, usize>) -> Map<Seq<char>, usize>;

/// The number under a name, where the map holds one.
pub open spec fn number_under(map: Map<Seq<char>, usize>, name: Seq<char>) -> Option<usize> {
    if map.contains_key(name) {
        Some(map[name])
    } else {
        None
    }
}

/// No number under any name.
pub open spec fn no_numbers() -> Map<Seq<char>, usize> {
    Map::empty()
}

/// Calls `dashmap::DashMap::new`: the map is empty.
#[verifier::external_body]
pub(crate) fn number_map_new() -> (map: DashMap<String, usize>)
    ensures
        number_map(map) == no_numbers(),
{
    DashMap::new()
}

/// Calls `dashmap::DashMap::insert`: the number stands under the name, in place
/// of the one that is returned, if there was one.
#[verifier::external_body]
pub(crate) fn number_map_insert(
    map: &mut DashMap<String, usize>,
    name: String,
    number: usize,
) -> (previous: Option<usize>)
    ensures
        number_map(*final(map)) == number_map(*old(map)).insert(name@, number),
        previous == number_under(number_map(*old(map)), name@),
{
    map.insert(name, number)
}

/// Calls `dashmap::DashMap::remove`: nothing stands under the name any more; the
/// result is what stood there.
#[verifier::external_body]
pub(crate) fn number_map_remove(map: &mut DashMap<String, usize>, name: &str) -> (removed: Option<
    usize,
>)
    ensures
        number_map(*final(map)) == number_map(*old(map)).remove(name@),
        removed == number_under(number_map(*old(map)), name@),
{
    map.remove(name).map(|entry| entry.1)
}

/// Calls `dashmap::DashMap::get` and copies the number under the name.
#[verifier::external_body]
pub(crate) fn number_map_get(map: &DashMap<String, usize>, name: &str) -> (number: Option<usize>)
    ensures
        number == number_under(number_map(*map), name@),
{
    map.get(name).map(|entry| *entry.value())
}

// Queues: `tokio::sync::mpsc` without a bound.
#[verifier::external_type_specification]
#[verifier::external_body]
#[verifier::reject_recursive_types(T)]
pub struct ExUnboundedSender<T>(mpsc::UnboundedSender<T>);

#[verifier::external_type_specification]
#[verifier::external_body]
#[verifier::reject_recursive_types(T)]
pub struct ExUnboundedReceiver<T>(mpsc::UnboundedReceiver<T>);

/// The messages that a sender was given, in order, each with whether it was
/// accepted. A clone of a sender starts without any.
pub uninterp spec fn messages_to_agent(
    sender: mpsc::UnboundedSender<AgentJsonRpcMessage>,
) -> Seq<(AgentJsonRpcMessage, bool)>;

/// The queue that a sender feeds. A clone of a sender feeds the same one.
pub uninterp spec fn queue_fed_by(sender: mpsc::UnboundedSender<AgentJsonRpcMessage>) -> int;

/// The queue that a receiver empties.
pub uninterp spec fn queue_emptied_by(
    receiver: mpsc::UnboundedReceiver<AgentJsonRpcMessage>,
) -> int;

/// Whether the receiving half of a queue is open: nobody closed it through this
/// receiver.
pub uninterp spec fn is_open(receiver: mpsc::UnboundedReceiver<AgentJsonRpcMessage>) -> bool;

/// Whether `held` is what the queue is emptied by, and open.
pub open spec fn is_received(
    queue: int,
    held: Option<&mpsc::UnboundedReceiver<AgentJsonRpcMessage>>,
) -> bool {
    held matches Some(receiver) && queue_emptied_by(*receiver) == queue && is_open(*receiver)
}

/// Nothing was given to a sender.
pub open spec fn no_messages_to_agent() -> Seq<(AgentJsonRpcMessage, bool)> {
    Seq::empty()
}

/// Calls `tokio::sync::mpsc::unbounded_channel`: the receiver empties the queue
/// that the sender feeds and is open, and nothing has been sent yet.
#[verifier::external_body]
pub(crate) fn agent_message_channel() -> (channel: (
    mpsc::UnboundedSender<AgentJsonRpcMessage>,
    mpsc::UnboundedReceiver<AgentJsonRpcMessage>,
))
    ensures
        messages_to_agent(channel.0) == no_messages_to_agent(),
        queue_emptied_by(channel.1) == queue_fed_by(channel.0),
        is_open(channel.1),
{
    mpsc::unbounded_channel()
}

/// Calls `tokio::sync::mpsc::UnboundedSender::send`: the message is accepted, or
/// refused because the receiving half is closed or gone. Where the caller holds that
/// half, and it is open, the message is accepted; otherwise nothing is claimed of
/// which. The sender feeds the same queue as before.
#[verifier::external_body]
pub(crate) fn send_to_agent(
    sender: &mut mpsc::UnboundedSender<AgentJsonRpcMessage>,
    message: AgentJsonRpcMessage,
    held: Option<&mpsc::UnboundedReceiver<AgentJsonRpcMessage>>,
) -> (accepted: bool)
    ensures
        is_received(queue_fed_by(*old(sender)), held) ==> accepted,
        messages_to_agent(*final(sender)) == messages_to_agent(*old(sender)).push((message, accepted)),
        queue_fed_by(*final(sender)) == queue_fed_by(*old(sender)),
{
    sender.send(message).is_ok()
}

/// Calls `tokio::sync::mpsc::UnboundedSender::clone`: the clone feeds the same
/// queue. Nothing has been sent through it yet.
#[verifier::external_body]
pub(crate) fn clone_agent_sender(sender: &mpsc::UnboundedSender<AgentJsonRpcMessage>) -> (clone:
    mpsc::UnboundedSender<AgentJsonRpcMessage>)
    ensures
        messages_to_agent(clone) == no_messages_to_agent(),
        queue_fed_by(clone) == queue_fed_by(*sender),
{
    sender.clone()
}

/// The messages to the balancer that a sender was given, in order, each with
/// whether it was accepted. A clone of a sender starts without any.
pub uninterp spec fn messages_to_balancer(
    sender: mpsc::UnboundedSender<ManagementJsonRpcMessage>,
) -> Seq<(ManagementJsonRpcMessage, bool)>;

/// The queue of messages to the balancer that a sender feeds. A clone of a sender
/// feeds the same one.
pub uninterp spec fn balancer_queue_fed_by(
    sender: mpsc::UnboundedSender<ManagementJsonRpcMessage>,
) -> int;

/// Nothing was given to a sender.
pub open spec fn no_messages_to_balancer() -> Seq<(ManagementJsonRpcMessage, bool)> {
    Seq::empty()
}

/// Calls `tokio::sync::mpsc::UnboundedSender::clone`: the clone feeds the same
/// queue. Nothing has been sent through it yet.
#[verifier::external_body]
pub(crate) fn clone_balancer_sender(sender: &mpsc::UnboundedSender<ManagementJsonRpcMessage>) -> (
clone: mpsc::UnboundedSender<ManagementJsonRpcMessage>)
    ensures
        messages_to_balancer(clone) == no_messages_to_balancer(),
        balancer_queue_fed_by(clone) == balancer_queue_fed_by(*sender),
{
    sender.clone()
}

/// Calls `tokio::sync::mpsc::UnboundedSender::send`: the message is accepted, or
/// refused because the receiving half is gone. Nothing is claimed of which. The
/// sender feeds the same queue as before.
#[verifier::external_body]
pub(crate) fn send_to_balancer(
    sender: &mut mpsc::UnboundedSender<ManagementJsonRpcMessage>,
    message: ManagementJsonRpcMessage,
) -> (accepted: bool)
    ensures
        messages_to_balancer(*final(sender)) == messages_to_balancer(*old(sender)).push((message, accepted)),
        balancer_queue_fed_by(*final(sender)) == balancer_queue_fed_by(*old(sender)),
{
    sender.send(message).is_ok()
}

/// The desired states that a sender was given, in order, each with whether it
/// was accepted.
pub uninterp spec fn desired_states_sent(
    sender: mpsc::UnboundedSender<AgentDesiredState>,
) -> Seq<(AgentDesiredState, bool)>;

/// Calls `tokio::sync::mpsc::UnboundedSender::send`: the state is accepted, or
/// refused because the receiving half is gone. Nothing is claimed of which.
#[verifier::external_body]
pub(crate) fn send_desired_state(
    sender: &mut mpsc::UnboundedSender<AgentDesiredState>,
    message: AgentDesiredState,
) -> (accepted: bool)
    ensures
        desired_states_sent(*final(sender)) == desired_states_sent(*old(sender)).push((message, accepted)),
{
    sender.send(message).is_ok()
}

/// The requests that a sender was given, in order, each with whether it was
/// accepted.
pub uninterp spec fn generation_requests_sent(
    sender: mpsc::UnboundedSender<GenerationRequest>,
) -> Seq<(GenerationRequest, bool)>;

/// Calls `tokio::sync::mpsc::UnboundedSender::send`: the request is accepted, or
/// refused because the receiving half is gone. Nothing is claimed of which.
#[verifier::external_body]
pub(crate) fn send_generation_request(
    sender: &mut mpsc::UnboundedSender<GenerationRequest>,
    message: GenerationRequest,
) -> (accepted: bool)
    ensures
        generation_requests_sent(*final(sender)) == generation_requests_sent(*old(sender)).push((message, accepted)),
{
    sender.send(message).is_ok()
}

#[verifier::external_type_specification]
#[verifier::external_body]
pub struct ExBytes(Bytes);

/// The payloads that a sender was given, in order, each with whether it was
/// accepted.
pub uninterp spec fn pongs_sent(
    sender: mpsc::UnboundedSender<Bytes>,
) -> Seq<(Bytes, bool)>;

/// Calls `tokio::sync::mpsc::UnboundedSender::send`: the payload is accepted, or
/// refused because the receiving half is gone. Nothing is claimed of which.
#[verifier::external_body]
pub(crate) fn send_pong(
    sender: &mut mpsc::UnboundedSender<Bytes>,
    message: Bytes,
) -> (accepted: bool)
    ensures
        pongs_sent(*final(sender)) == pongs_sent(*old(sender)).push((message, accepted)),
{
    sender.send(message).is_ok()
}

// Commands to the scheduler thread: `std::sync::mpsc`.
#[verifier::external_type_specification]
#[verifier::external_body]
#[verifier::reject_recursive_types(T)]
pub struct ExStdSender<T>(std::sync::mpsc::Sender<T>);

/// The commands that a sender was given, in order, each with whether it was
/// accepted.
pub uninterp spec fn commands_sent(
    sender: std::sync::mpsc::Sender<ContinuousBatchSchedulerCommand>,
) -> Seq<(ContinuousBatchSchedulerCommand, bool)>;

/// Calls `std::sync::mpsc::Sender::send`: the command is accepted, or refused
/// because the receiving half is gone. Nothing is claimed of which.
#[verifier::external_body]
pub(crate) fn send_command(
    sender: &mut std::sync::mpsc::Sender<ContinuousBatchSchedulerCommand>,
    command: ContinuousBatchSchedulerCommand,
) -> (accepted: bool)
    ensures
        commands_sent(*final(sender)) == commands_sent(*old(sender)).push((command, accepted)),
{
    sender.send(command).is_ok()
}

// Cancellation: `tokio_util::sync::CancellationToken`.
#[verifier::external_type_specification]
#[verifier::external_body]
pub struct ExCancellationToken(CancellationToken);

/// Whether cancellation was requested through this very handle. What a handle
/// cancels may have been cancelled through a clone of it, or along with something
/// else.
pub uninterp spec fn cancel_requested(token: CancellationToken) -> bool;

/// What is cancelled through a token. A clone of a token cancels the same.
pub uninterp spec fn cancels(token: CancellationToken) -> int;

/// What is cancelled along with what is cancelled through a token.
pub uninterp spec fn cancelled_along_with(token: CancellationToken) -> int;

/// Calls `tokio_util::sync::CancellationToken::new`: nothing was requested yet.
#[verifier::external_body]
pub(crate) fn new_token() -> (token: CancellationToken)
    ensures
        !cancel_requested(token),
{
    CancellationToken::new()
}

/// Calls `tokio_util::sync::CancellationToken::child_token`: the child is
/// cancelled along with the parent. Nothing was requested through it yet.
#[verifier::external_body]
pub(crate) fn child_token(token: &CancellationToken) -> (child: CancellationToken)
    ensures
        cancelled_along_with(child) == cancels(*token),
        !cancel_requested(child),
{
    token.child_token()
}

/// Calls `tokio_util::sync::CancellationToken::clone`: the clone cancels the same,
/// and is cancelled along with the same. Nothing was requested through it yet.
#[verifier::external_body]
pub(crate) fn clone_token(token: &CancellationToken) -> (clone: CancellationToken)
    ensures
        cancels(clone) == cancels(*token),
        cancelled_along_with(clone) == cancelled_along_with(*token),
        !cancel_requested(clone),
{
    token.clone()
}

/// Calls `tokio_util::sync::CancellationToken::cancel`.
#[verifier::external_body]
pub(crate) fn cancel(token: &mut CancellationToken)
    ensures
        cancel_requested(*final(token)),
        cancels(*final(token)) == cancels(*old(token)),
        cancelled_along_with(*final(token)) == cancelled_along_with(*old(token)),
{
    token.cancel()
}

/// Whether the token is the one that it was before, and was cancelled since.
pub open spec fn was_cancelled(before: CancellationToken, after: CancellationToken) -> bool {
    &&& cancel_requested(after)
    &&& cancels(after) == cancels(before)
    &&& cancelled_along_with(after) == cancelled_along_with(before)
}

// Identifiers: `nanoid`.
/// Whether `character` can occur in a generated identifier.
pub open spec fn is_identifier_character(character: char) -> bool {
    ||| character == '_'
    ||| character == '-'
    ||| '0' <= character <= '9'
    ||| 'a' <= character <= 'z'
    ||| 'A' <= character <= 'Z'
}

/// Whether `text` has the shape of a generated identifier.
pub open spec fn is_identifier(text: Seq<char>) -> bool {
    text.len() == 21 && forall|i: int|
        0 <= i < text.len() ==> is_identifier_character(#[trigger] text[i])
}

/// Calls `nanoid::format` with the alphabet and the size that the crate has for
/// its plain identifiers: twenty-one characters of that alphabet, drawn at random.
#[verifier::external_body]
pub(crate) fn fresh_identifier() -> (identifier: String)
    ensures
        is_identifier(identifier@),
{
    nanoid::format(nanoid::rngs::default, &nanoid::alphabet::SAFE, 21)
}

// Text.
/// A text in quotes, with the escapes of `Debug`.
pub uninterp spec fn quoted_text(text: Seq<char>) -> Seq<char>;

/// Formats a string with `std::fmt::Debug`. How it escapes characters is left to
/// the name of the result.
#[verifier::external_body]
pub(crate) fn quote(text: &str) -> (quoted: String)
    ensures
        quoted@ == quoted_text(text@),
{
    format!("{text:?}")
}

/// Whether `text` consists of decimal digits.
pub open spec fn is_digits(text: Seq<char>) -> bool {
    forall|i: int| 0 <= i < text.len() ==> '0' <= #[trigger] text[i] <= '9'
}

/// The number that a text of decimal digits stands for.
pub open spec fn digits_value(text: Seq<char>) -> nat
    decreases text.len(),
{
    if text.len() == 0 {
        0
    } else {
        digits_value(text.drop_last()) * 10 + (text.last() as nat - '0' as nat) as nat
    }
}

/// What a text says as a number.
#[derive(Clone, Copy, Debug, PartialEq, Eq, Structural)]
pub enum ParsedNumber {
    Number(i32),
    /// It is a number, but too large a one.
    TooLarge,
    /// It is not a number, or too small a one.
    Invalid,
}

/// What a text says as a number.
pub uninterp spec fn parsed_number(text: Seq<char>) -> ParsedNumber;

/// Whether `text` begins with a sign.
pub open spec fn has_sign(text: Seq<char>) -> bool {
    text.len() > 0 && (text[0] == '+' || text[0] == '-')
}

/// The text without its sign.
pub open spec fn unsigned_part(text: Seq<char>) -> Seq<char> {
    if has_sign(text) {
        text.subrange(1, text.len() as int)
    } else {
        text
    }
}

/// Whether `text` is a number: digits, after a sign or without one.
pub open spec fn is_number_text(text: Seq<char>) -> bool {
    unsigned_part(text).len() > 0 && is_digits(unsigned_part(text))
}

/// The number that a number text stands for.
pub open spec fn number_in(text: Seq<char>) -> int {
    if has_sign(text) && text[0] == '-' {
        -(digits_value(unsigned_part(text)) as int)
    } else {
        digits_value(unsigned_part(text)) as int
    }
}

/// Whether `parsed` is what `text` says: a number text its number, or that it is
/// too large or too small a one, and any other text none.
pub open spec fn says(text: Seq<char>, parsed: ParsedNumber) -> bool {
    if is_number_text(text) {
        parsed == if number_in(text) > i32::MAX {
            ParsedNumber::TooLarge
        } else if number_in(text) < i32::MIN {
            ParsedNumber::Invalid
        } else {
            ParsedNumber::Number(number_in(text) as i32)
        }
    } else {
        !(parsed is Number)
    }
}

/// Calls `str::parse::<i32>` and tells the positive overflow apart from the other
/// errors. Digits with or without a sign stand for their value, or are too large
/// or too small; nothing else is a number. Which error a text has that is neither
/// is left to the name of the result.
#[verifier::external_body]
pub(crate) fn parse_number(text: &str) -> (parsed: ParsedNumber)
    ensures
        parsed == parsed_number(text@),
        says(text@, parsed),
{
    match text.parse::<i32>() {
        Ok(number) => ParsedNumber::Number(number),
        Err(error) => match error.kind() {
            std::num::IntErrorKind::PosOverflow => ParsedNumber::TooLarge,
            _ => ParsedNumber::Invalid,
        },
    }
}

/// Whether `path` is without anything that some systems read in a way of their
/// own: a drive letter or a network share in front, and backslashes.
pub open spec fn is_portable_path(path: Seq<char>) -> bool {
    &&& !path.contains('\\')
    &&& !(path.len() >= 2 && path[1] == ':')
    &&& !(path.len() >= 2 && path[0] == '/' && path[1] == '/')
}

/// The path without separators at its end, and without parts at its end that
/// stand for the directory itself.
pub open spec fn trimmed_path(path: Seq<char>) -> Seq<char>
    decreases path.len(),
{
    if path.len() == 0 {
        path
    } else if path.last() == '/' {
        trimmed_path(path.drop_last())
    } else if path.len() >= 2 && path.last() == '.' && path[path.len() - 2] == '/' {
        trimmed_path(path.drop_last())
    } else {
        path
    }
}

/// What comes after the last separator.
pub open spec fn last_part(path: Seq<char>) -> Seq<char>
    decreases path.len(),
{
    if path.len() == 0 || path.last() == '/' {
        Seq::empty()
    } else {
        last_part(path.drop_last()).push(path.last())
    }
}

/// The file name of a portable path: its last part, unless there is none, or it
/// leads to the parent directory.
pub open spec fn final_name(path: Seq<char>) -> Option<Seq<char>> {
    let name = last_part(trimmed_path(path));
    if name.len() == 0 || name == ".."@ {
        None
    } else {
        Some(name)
    }
}

/// Whether `file_name` can be what is found as the file name of `path`: the name
/// of a portable path that does more than name the directory itself, and never an
/// empty one.
pub open spec fn may_be_file_name(path: Seq<char>, file_name: Option<Seq<char>>) -> bool {
    &&& is_portable_path(path) && trimmed_path(path) != "."@ ==> file_name == final_name(path)
    &&& file_name matches Some(name) ==> name.len() > 0
}

/// Calls `std::path::Path::file_name`. Which names other paths than portable ones
/// have is up to the system. A portable path has that of its final component,
/// with separators and single dots at its end set aside; the empty path, the root
/// and a path that ends in two dots have none. No file name is empty.
#[verifier::external_body]
pub(crate) fn file_name(path: &str) -> (name: Option<String>)
    ensures
        may_be_file_name(path@, crate::text::text_of(name)),
{
    std::path::Path::new(path).file_name().and_then(|name| name.to_str()).map(str::to_owned)
}

} // verus!
