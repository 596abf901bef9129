//! Which requests are waiting for responses of an agent.
use dashmap::DashMap;
use vstd::prelude::*;

use crate::outside::number_map;
use crate::outside::number_map_get;
use crate::outside::number_map_insert;
use crate::outside::number_map_new;
use crate::outside::number_map_remove;
use crate::outside::number_under;

verus! {

/// The channels on which responses are awaited, by the id of their request.
/// A channel is known by its number.
pub struct SenderCollection {
    channels: DashMap<String, usize>,
}

/// A request id under which responses are awaited already.
#[derive(Debug)]
pub struct SenderAlreadyExists {
    pub request_id: String,
}

impl SenderAlreadyExists {
    /// The error as a message.
    pub fn message(&self) -> (text: String)
        ensures
            text@ == "Sender for request_id "@ + self.request_id@ + " already exists"@,
    {
        let mut text = String::from_str("Sender for request_id ");
        text.append(self.request_id.as_str());
        text.append(" already exists");
        text
    }
}

impl View for SenderCollection {
    type V = Map<Seq<char>, usize>;

    closed spec fn view(&self) -> Map<Seq<char>, usize> {
        number_map(self.channels)
    }
}

impl SenderCollection {
    /// Registers the channel for the responses to a request; an error, and no
    /// change, if there is one already.
    pub fn register_sender(&mut self, request_id: String, channel: usize) -> (result: Result<
        (),
        SenderAlreadyExists,
    >)
        ensures
            match result {
                Ok(()) => !old(self)@.contains_key(request_id@) && final(self)@ == old(
                    self,
                )@.insert(request_id@, channel),
                Err(error) => old(self)@.contains_key(request_id@) && final(self)@ == old(self)@
                    && error.request_id == request_id,
            },
    {
        if let Some(_) = number_map_get(&self.channels, request_id.as_str()) {
            return Err(SenderAlreadyExists { request_id });
        }
        number_map_insert(&mut self.channels, request_id, channel);
        Ok(())
    }

    /// Forgets the channel for the responses to a request.
    pub fn deregister_sender(&mut self, request_id: &str)
        ensures
            final(self)@ == old(self)@.remove(request_id@),
    {
        number_map_remove(&mut self.channels, request_id);
    }

    /// The channel on which the responses to a request are awaited.
    pub fn sender_for(&self, request_id: &str) -> (channel: Option<usize>)
        ensures
            channel == number_under(self@, request_id@),
    {
        number_map_get(&self.channels, request_id)
    }
}

impl Default for SenderCollection {
    fn default() -> (collection: Self)
        ensures
            collection@ == Map::<Seq<char>, usize>::empty(),
    {
        SenderCollection { channels: number_map_new() }
    }
}

/// A channel that was registered is the one that responses go to, until it is
/// forgotten; other requests are not touched by either. A second one under the same
/// id is refused.
pub proof fn responses_go_to_the_registered_channel(
    registered: &mut SenderCollection,
    request_id: String,
    channel: usize,
    result: Result<(), SenderAlreadyExists>,
    forgotten: &mut SenderCollection,
    forgotten_id: &str,
    gone: Option<usize>,
    asked_id: &str,
    asked: Option<usize>,
)
    requires
        call_ensures(
            SenderCollection::register_sender,
            (registered, request_id, channel),
            result,
        ),
        call_ensures(SenderCollection::sender_for, (&*final(registered), asked_id), asked),
        call_ensures(SenderCollection::deregister_sender, (forgotten, forgotten_id), ()),
        call_ensures(SenderCollection::sender_for, (&*final(forgotten), forgotten_id), gone),
    ensures
        result is Ok <==> !old(registered)@.contains_key(request_id@),
        result is Ok && asked_id@ == request_id@ ==> asked == Some(channel),
        asked_id@ != request_id@ || result is Err ==> (asked is Some <==> old(
            registered,
        )@.contains_key(asked_id@)),
        asked_id@ != request_id@ || result is Err ==> (asked matches Some(asked) ==> asked == old(
            registered,
        )@[asked_id@]),
        gone is None,
        asked_id@ != forgotten_id@ ==> (final(forgotten)@.contains_key(asked_id@) <==> old(
            forgotten,
        )@.contains_key(asked_id@)),
        asked_id@ != forgotten_id@ && old(forgotten)@.contains_key(asked_id@)
            ==> final(forgotten)@[asked_id@] == old(forgotten)@[asked_id@],
{
}

/// At first nobody waits.
pub proof fn at_first_nobody_waits(collection: SenderCollection, request_id: Seq<char>)
    requires
        call_ensures(SenderCollection::default, (), collection),
    ensures
        !collection@.contains_key(request_id),
{
}

} // verus!
