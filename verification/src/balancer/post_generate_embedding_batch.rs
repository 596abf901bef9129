//! Embeddings of a batch of documents, generated by several agents at once.
use vstd::prelude::*;

use crate::balancer::request_from_agent::OutgoingMessage;
use crate::messaging::messages::AgentDesiredState;
use crate::messaging::messages::AgentJsonRpcResponse;
use crate::messaging::messages::EmbeddingInputDocument;
use crate::messaging::messages::EmbeddingResult;
use crate::messaging::messages::GenerateEmbeddingBatchParams;
use crate::messaging::messages::ResponseEnvelope;
use crate::outside::fresh_identifier;
use crate::outside::is_identifier;

verus! {

/// Why documents cannot be distributed.
#[derive(Clone, Copy, Debug, PartialEq, Eq, Structural)]
pub enum ChunkEvenlyWithCapError {
    ZeroAgentCount,
    ZeroMaxDocumentsPerChunk,
}

/// Why a request for embeddings is refused.
#[derive(Clone, Copy, Debug, PartialEq, Eq, Structural)]
pub enum EmbeddingBatchRefusal {
    ApplicableStateNotSet,
    EmbeddingsNotEnabled,
    NoAgentsConnected,
    ZeroEmbeddingBatchSize,
}

impl EmbeddingBatchRefusal {
    /// The HTTP status of the refusal.
    pub fn status(&self) -> (status: u16)
        ensures
            status == match *self {
                EmbeddingBatchRefusal::ApplicableStateNotSet => 503u16,
                EmbeddingBatchRefusal::EmbeddingsNotEnabled => 501u16,
                EmbeddingBatchRefusal::NoAgentsConnected => 503u16,
                EmbeddingBatchRefusal::ZeroEmbeddingBatchSize => 500u16,
            },
    {
        match self {
            EmbeddingBatchRefusal::ApplicableStateNotSet => 503,
            EmbeddingBatchRefusal::EmbeddingsNotEnabled => 501,
            EmbeddingBatchRefusal::NoAgentsConnected => 503,
            EmbeddingBatchRefusal::ZeroEmbeddingBatchSize => 500,
        }
    }

    /// The refusal as a message.
    pub fn message(&self) -> (text: &'static str)
        ensures
            text@ == match *self {
                EmbeddingBatchRefusal::ApplicableStateNotSet =>
                    "Balancer applicable state is not yet set"@,
                EmbeddingBatchRefusal::EmbeddingsNotEnabled =>
                    "Embedding generation is not enabled in the inference parameters"@,
                EmbeddingBatchRefusal::NoAgentsConnected => "No agents are currently connected"@,
                EmbeddingBatchRefusal::ZeroEmbeddingBatchSize =>
                    "embedding_batch_size is zero despite validation"@,
            },
    {
        match self {
            EmbeddingBatchRefusal::ApplicableStateNotSet =>
                "Balancer applicable state is not yet set",
            EmbeddingBatchRefusal::EmbeddingsNotEnabled =>
                "Embedding generation is not enabled in the inference parameters",
            EmbeddingBatchRefusal::NoAgentsConnected => "No agents are currently connected",
            EmbeddingBatchRefusal::ZeroEmbeddingBatchSize =>
                "embedding_batch_size is zero despite validation",
        }
    }
}

/// The documents of all batches, one batch after the other.
pub open spec fn joined(batches: Seq<GenerateEmbeddingBatchParams>) -> Seq<EmbeddingInputDocument>
    decreases batches.len(),
{
    if batches.len() == 0 {
        Seq::empty()
    } else {
        joined(batches.drop_last()) + batches.last().input_batch@
    }
}

/// The least number of batches of at most `cap` documents that `count` documents fill.
pub open spec fn batches_needed(count: nat, cap: nat) -> nat {
    if count % cap == 0 {
        count / cap
    } else {
        count / cap + 1
    }
}

/// How many batches `count` documents are split into: as many as there are
/// agents, but no empty ones, and more where a batch would be too large.
pub open spec fn batch_count(count: nat, agent_count: nat, cap: nat) -> nat {
    let for_agents = if agent_count < count {
        agent_count
    } else {
        count
    };
    if for_agents < batches_needed(count, cap) {
        batches_needed(count, cap)
    } else {
        for_agents
    }
}

/// The size of the batch with the given index, if `count` documents are split
/// into `batches` batches as evenly as possible.
pub open spec fn even_share(count: nat, batches: nat, index: int) -> nat {
    if index < count % batches {
        count / batches + 1
    } else {
        count / batches
    }
}

proof fn lemma_even_shares_fit(count: nat, agent_count: nat, cap: nat, index: int)
    requires
        count > 0,
        agent_count > 0,
        cap > 0,
        index >= 0,
    ensures
        batch_count(count, agent_count, cap) > 0,
        1 <= even_share(count, batch_count(count, agent_count, cap), index) <= cap,
{
    let batches = batch_count(count, agent_count, cap);
    let needed = batches_needed(count, cap);
    assert(needed * cap >= count && needed > 0 && needed <= count) by (nonlinear_arith)
        requires
            count > 0,
            cap > 0,
            needed == if count % cap == 0 {
                count / cap
            } else {
                count / cap + 1
            },
    {
        vstd::arithmetic::div_mod::lemma_fundamental_div_mod(count as int, cap as int);
    };
    assert(batches <= count);
    let base = count / batches;
    let extra = count % batches;
    vstd::arithmetic::div_mod::lemma_fundamental_div_mod(count as int, batches as int);
    assert(count == batches * base + extra);
    assert(batches * cap >= count) by (nonlinear_arith)
        requires
            batches >= needed,
            needed * cap >= count,
            cap > 0,
    ;
    assert(base >= 1) by (nonlinear_arith)
        requires
            count == batches * base + extra,
            extra < batches,
            batches <= count,
    ;
    assert(base <= cap) by (nonlinear_arith)
        requires
            count == batches * base + extra,
            batches * cap >= count,
            batches > 0,
    ;
    assert(extra > 0 ==> base < cap) by (nonlinear_arith)
        requires
            count == batches * base + extra,
            batches * cap >= count,
            batches > 0,
    ;
}

/// Splits the documents into batches, in order and as evenly as possible: a batch
/// for each agent, and more where a batch would hold more than
/// `max_documents_per_chunk` documents.
pub fn chunk_evenly_with_cap(
    params: GenerateEmbeddingBatchParams,
    agent_count: usize,
    max_documents_per_chunk: usize,
) -> (result: Result<Vec<GenerateEmbeddingBatchParams>, ChunkEvenlyWithCapError>)
    ensures
        match result {
            Ok(batches) => {
                let count = params.input_batch@.len();
                &&& agent_count > 0
                &&& max_documents_per_chunk > 0
                &&& joined(batches@) == params.input_batch@
                &&& batches@.len() == batch_count(
                    count,
                    agent_count as nat,
                    max_documents_per_chunk as nat,
                )
                &&& agent_count <= count ==> batches@.len() >= agent_count
                &&& count <= agent_count ==> batches@.len() == count
                &&& forall|i: int|
                    0 <= i < batches@.len() ==> {
                        &&& (#[trigger] batches@[i]).normalization_method
                            == params.normalization_method
                        &&& batches@[i].input_batch@.len() == even_share(
                            count,
                            batches@.len(),
                            i,
                        )
                        &&& 1 <= batches@[i].input_batch@.len() <= max_documents_per_chunk
                    }
            },
            Err(ChunkEvenlyWithCapError::ZeroAgentCount) => agent_count == 0,
            Err(ChunkEvenlyWithCapError::ZeroMaxDocumentsPerChunk) => agent_count > 0
                && max_documents_per_chunk == 0,
        },
{
    if agent_count == 0 {
        return Err(ChunkEvenlyWithCapError::ZeroAgentCount);
    }
    if max_documents_per_chunk == 0 {
        return Err(ChunkEvenlyWithCapError::ZeroMaxDocumentsPerChunk);
    }
    let mut batches: Vec<GenerateEmbeddingBatchParams> = Vec::new();
    let mut rest = params.input_batch;
    let normalization_method = params.normalization_method;
    let ghost documents = rest@;
    let count: usize = rest.len();
    if count == 0 {
        assert(joined(batches@) =~= documents);
        return Ok(batches);
    }
    let for_agents: usize = if agent_count < count {
        agent_count
    } else {
        count
    };
    proof {
        lemma_even_shares_fit(
            count as nat,
            agent_count as nat,
            max_documents_per_chunk as nat,
            0,
        );
        assert(count / max_documents_per_chunk + 1 <= usize::MAX || count
            % max_documents_per_chunk == 0) by (nonlinear_arith)
            requires
                0 < count <= usize::MAX,
                0 < max_documents_per_chunk,
        {
            vstd::arithmetic::div_mod::lemma_fundamental_div_mod(
                count as int,
                max_documents_per_chunk as int,
            );
        };
    }
    let needed: usize = if count % max_documents_per_chunk == 0 {
        count / max_documents_per_chunk
    } else {
        count / max_documents_per_chunk + 1
    };
    let chunks: usize = if for_agents < needed {
        needed
    } else {
        for_agents
    };
    let base: usize = count / chunks;
    let extra: usize = count % chunks;
    proof {
        vstd::arithmetic::div_mod::lemma_fundamental_div_mod(count as int, chunks as int);
        assert((chunks - 0) * base == chunks * base);
    }
    let mut i: usize = 0;
    while i < chunks
        invariant
            i <= chunks,
            chunks > 0,
            count == documents.len(),
            count > 0,
            agent_count > 0,
            max_documents_per_chunk > 0,
            chunks == batch_count(
                count as nat,
                agent_count as nat,
                max_documents_per_chunk as nat,
            ),
            base == count as nat / chunks as nat,
            extra == count as nat % chunks as nat,
            batches@.len() == i,
            joined(batches@) + rest@ == documents,
            rest@.len() == (chunks - i) * base + (if i < extra {
                extra - i
            } else {
                0
            }),
            forall|j: int|
                0 <= j < i ==> {
                    &&& (#[trigger] batches@[j]).normalization_method == normalization_method
                    &&& batches@[j].input_batch@.len() == even_share(
                        count as nat,
                        chunks as nat,
                        j,
                    )
                    &&& 1 <= batches@[j].input_batch@.len() <= max_documents_per_chunk
                },
        decreases chunks - i,
    {
        proof {
            lemma_even_shares_fit(
                count as nat,
                agent_count as nat,
                max_documents_per_chunk as nat,
                i as int,
            );
            assert((chunks - i) * base == (chunks - i - 1) * base + base) by (nonlinear_arith);
            assert((chunks - i - 1) * base >= 0) by (nonlinear_arith)
                requires
                    i < chunks,
                    base >= 0,
            ;
        }
        let size: usize = if i < extra {
            base + 1
        } else {
            base
        };
        let ghost before = batches@;
        let ghost pending = rest@;
        let tail = rest.split_off(size);
        batches.push(
            GenerateEmbeddingBatchParams {
                input_batch: rest,
                normalization_method: normalization_method.clone(),
            },
        );
        rest = tail;
        proof {
            assert(batches@.drop_last() =~= before);
            assert(pending =~= batches@.last().input_batch@ + rest@);
            assert(joined(batches@) + rest@ =~= joined(before) + pending);
        }
        i = i + 1;
    }
    assert((chunks - i) * base == 0) by (nonlinear_arith)
        requires
            i == chunks,
    ;
    assert(joined(batches@) + rest@ =~= joined(batches@));
    proof {
        batches_are_as_few_as_agents_and_cap_allow(
            count as nat,
            agent_count as nat,
            max_documents_per_chunk as nat,
            0,
        );
    }
    Ok(batches)
}

/// The batches that a request for embeddings is split into, one request to an
/// agent each; or why it is refused.
pub fn respond(
    agent_desired_state: &Option<AgentDesiredState>,
    agent_count: usize,
    params: GenerateEmbeddingBatchParams,
) -> (result: Result<Vec<GenerateEmbeddingBatchParams>, EmbeddingBatchRefusal>)
    ensures
        match *agent_desired_state {
            None => result == Err::<Vec<GenerateEmbeddingBatchParams>, EmbeddingBatchRefusal>(
                EmbeddingBatchRefusal::ApplicableStateNotSet,
            ),
            Some(state) => {
                let parameters = state.inference_parameters;
                if !parameters.enable_embeddings {
                    result == Err::<Vec<GenerateEmbeddingBatchParams>, EmbeddingBatchRefusal>(
                        EmbeddingBatchRefusal::EmbeddingsNotEnabled,
                    )
                } else if agent_count == 0 {
                    result == Err::<Vec<GenerateEmbeddingBatchParams>, EmbeddingBatchRefusal>(
                        EmbeddingBatchRefusal::NoAgentsConnected,
                    )
                } else if parameters.embedding_batch_size == 0 {
                    result == Err::<Vec<GenerateEmbeddingBatchParams>, EmbeddingBatchRefusal>(
                        EmbeddingBatchRefusal::ZeroEmbeddingBatchSize,
                    )
                } else {
                    &&& result matches Ok(batches)
                    &&& joined(batches@) == params.input_batch@
                    &&& batches@.len() == batch_count(
                        params.input_batch@.len(),
                        agent_count as nat,
                        parameters.embedding_batch_size as nat,
                    )
                    &&& agent_count <= params.input_batch@.len() ==> batches@.len() >= agent_count
                    &&& forall|i: int|
                        0 <= i < batches@.len() ==> {
                            &&& (#[trigger] batches@[i]).normalization_method
                                == params.normalization_method
                            &&& batches@[i].input_batch@.len() == even_share(
                                params.input_batch@.len(),
                                batches@.len(),
                                i,
                            )
                            &&& 1 <= batches@[i].input_batch@.len()
                                <= parameters.embedding_batch_size
                        }
                }
            },
        },
{
    match agent_desired_state {
        None => Err(EmbeddingBatchRefusal::ApplicableStateNotSet),
        Some(state) => {
            if !state.inference_parameters.enable_embeddings {
                return Err(EmbeddingBatchRefusal::EmbeddingsNotEnabled);
            }
            match chunk_evenly_with_cap(
                params,
                agent_count,
                state.inference_parameters.embedding_batch_size,
            ) {
                Ok(batches) => Ok(batches),
                Err(ChunkEvenlyWithCapError::ZeroAgentCount) => Err(
                    EmbeddingBatchRefusal::NoAgentsConnected,
                ),
                Err(ChunkEvenlyWithCapError::ZeroMaxDocumentsPerChunk) => Err(
                    EmbeddingBatchRefusal::ZeroEmbeddingBatchSize,
                ),
            }
        },
    }
}

/// What becomes of a message about one of the batches.
#[derive(Clone, Copy, Debug, PartialEq, Eq, Structural)]
pub enum EmbeddingChunk {
    /// The end of one batch is not the end of all of them.
    Discard,
    /// Its JSON form goes to the client.
    Serialize,
}

/// Decides what becomes of a message about one of the batches.
pub fn transform(message: &OutgoingMessage) -> (chunk: EmbeddingChunk)
    ensures
        chunk is Discard <==> is_embedding_done(*message),
{
    if let OutgoingMessage::Response(envelope) = message {
        if let AgentJsonRpcResponse::Embedding(EmbeddingResult::Done) = &envelope.response {
            return EmbeddingChunk::Discard;
        }
    }
    EmbeddingChunk::Serialize
}

/// Whether the message says that embeddings are complete.
pub open spec fn is_embedding_done(message: OutgoingMessage) -> bool {
    message matches OutgoingMessage::Response(envelope) && envelope.response
        == AgentJsonRpcResponse::Embedding(EmbeddingResult::Done)
}

/// What is to be written to the body of the answer.
#[derive(Debug)]
pub enum TransformResult {
    Chunk(String),
    Discard,
    Error(String),
}

/// A line of the body of the answer, where there is one to write.
pub fn body_line(transform_result: TransformResult) -> (line: Option<String>)
    ensures
        match transform_result {
            TransformResult::Chunk(content) => line matches Some(text) && text@ == content@
                + "\n"@,
            TransformResult::Error(content) => line matches Some(text) && text@ == content@
                + "\n"@,
            TransformResult::Discard => line is None,
        },
{
    match transform_result {
        TransformResult::Chunk(content) => Some(content.concat("\n")),
        TransformResult::Error(content) => Some(content.concat("\n")),
        TransformResult::Discard => None,
    }
}

/// The message that ends the answer, once all batches are complete.
pub fn done_message(request_id: String) -> (message: OutgoingMessage)
    ensures
        is_embedding_done(message),
        message matches OutgoingMessage::Response(envelope) && envelope.request_id == request_id
            && envelope.generated_by is None,
{
    OutgoingMessage::Response(
        ResponseEnvelope {
            generated_by: None,
            request_id,
            response: AgentJsonRpcResponse::Embedding(EmbeddingResult::Done),
        },
    )
}

/// The message that ends the answer, under an id of its own.
pub fn final_done_message() -> (message: OutgoingMessage)
    ensures
        is_final_done(message),
{
    done_message(fresh_identifier())
}

/// Whether the message ends the answer, under an id of its own.
pub open spec fn is_final_done(message: OutgoingMessage) -> bool {
    &&& is_embedding_done(message)
    &&& message matches OutgoingMessage::Response(envelope)
    &&& is_identifier(envelope.request_id@)
    &&& envelope.generated_by is None
}

/// The body of an answer while some of its batches are not over.
#[derive(Debug)]
pub struct EmbeddingBody {
    open_batches: usize,
}

/// Something that happens while the body of an answer is written.
#[derive(Debug)]
pub enum EmbeddingBodyEvent {
    /// There is a message about one of the batches.
    Message(OutgoingMessage),
    /// One of the batches is over, whether its embeddings are complete or not.
    BatchEnded,
}

/// How the body of an answer goes on.
#[derive(Debug)]
pub enum EmbeddingBodyStep {
    Wait(EmbeddingBody),
    /// Write the message.
    Write(OutgoingMessage, EmbeddingBody),
    /// Write the message, which is the last one.
    Close(OutgoingMessage),
}

impl View for EmbeddingBody {
    type V = nat;

    /// How many batches are not over.
    closed spec fn view(&self) -> nat {
        self.open_batches as nat
    }
}

/// Whether `step` is how a body with `open` batches that are not over goes on after
/// `event`. The end of one batch is not the end of all of them: only the end of the
/// last one ends the answer.
pub open spec fn body_goes_on(
    open: nat,
    event: EmbeddingBodyEvent,
    step: EmbeddingBodyStep,
) -> bool {
    match event {
        EmbeddingBodyEvent::Message(message) => if is_embedding_done(message) {
            step matches EmbeddingBodyStep::Wait(next) && next@ == open
        } else {
            &&& step matches EmbeddingBodyStep::Write(written, next)
            &&& written == message
            &&& next@ == open
        },
        EmbeddingBodyEvent::BatchEnded => if open == 1 {
            step matches EmbeddingBodyStep::Close(done) && is_final_done(done)
        } else {
            step matches EmbeddingBodyStep::Wait(next) && next@ == open - 1
        },
    }
}

impl EmbeddingBody {
    #[verifier::type_invariant]
    spec fn well_formed(self) -> bool {
        self.open_batches > 0
    }

    /// Begins the body of an answer to that many batches. Without any batch it ends
    /// at once.
    pub fn begin(batches: usize) -> (step: EmbeddingBodyStep)
        ensures
            if batches == 0 {
                step matches EmbeddingBodyStep::Close(done) && is_final_done(done)
            } else {
                step matches EmbeddingBodyStep::Wait(body) && body@ == batches
            },
    {
        if batches == 0 {
            EmbeddingBodyStep::Close(final_done_message())
        } else {
            EmbeddingBodyStep::Wait(EmbeddingBody { open_batches: batches })
        }
    }

    /// Goes on after an event.
    pub fn advance(self, event: EmbeddingBodyEvent) -> (step: EmbeddingBodyStep)
        ensures
            self@ > 0,
            body_goes_on(self@, event, step),
    {
        proof {
            use_type_invariant(&self);
        }
        match event {
            EmbeddingBodyEvent::Message(message) => match transform(&message) {
                EmbeddingChunk::Discard => EmbeddingBodyStep::Wait(self),
                EmbeddingChunk::Serialize => EmbeddingBodyStep::Write(message, self),
            },
            EmbeddingBodyEvent::BatchEnded => {
                if self.open_batches == 1 {
                    EmbeddingBodyStep::Close(final_done_message())
                } else {
                    EmbeddingBodyStep::Wait(
                        EmbeddingBody { open_batches: self.open_batches - 1 },
                    )
                }
            },
        }
    }
}

/// How many batches are not over after a step.
pub open spec fn open_after(step: EmbeddingBodyStep) -> nat {
    match step {
        EmbeddingBodyStep::Wait(body) => body@,
        EmbeddingBodyStep::Write(_, body) => body@,
        EmbeddingBodyStep::Close(_) => 0,
    }
}

/// How many batches are over after the events.
pub open spec fn ended(events: Seq<EmbeddingBodyEvent>) -> nat
    decreases events.len(),
{
    if events.len() == 0 {
        0
    } else if events.last() is BatchEnded {
        ended(events.drop_last()) + 1
    } else {
        ended(events.drop_last())
    }
}

/// Whether `steps` are how a body with that many batches goes on after each of the
/// events.
pub open spec fn is_body(
    batches: nat,
    events: Seq<EmbeddingBodyEvent>,
    steps: Seq<EmbeddingBodyStep>,
) -> bool {
    &&& batches > 0
    &&& events.len() == steps.len()
    &&& forall|i: int|
        0 <= i < steps.len() ==> {
            let open = if i == 0 {
                batches
            } else {
                open_after(steps[i - 1])
            };
            open > 0 && body_goes_on(open, events[i], #[trigger] steps[i])
        }
}

/// The message that ends the answer is written once, after the last batch is over,
/// and nothing is written after it.
pub proof fn the_end_follows_the_last_batch(
    batches: nat,
    events: Seq<EmbeddingBodyEvent>,
    steps: Seq<EmbeddingBodyStep>,
    i: int,
)
    requires
        is_body(batches, events, steps),
        0 <= i < steps.len(),
    ensures
        ended(events.take(i + 1)) <= batches,
        open_after(steps[i]) == batches - ended(events.take(i + 1)),
        steps[i] is Close <==> ended(events.take(i + 1)) == batches,
        steps[i] is Close ==> i == steps.len() - 1,
    decreases i,
{
    let events_before = events.take(i + 1).drop_last();
    assert(events.take(i + 1).last() == events[i]);
    if i == 0 {
        assert(events_before =~= Seq::empty());
        assert(ended(Seq::<EmbeddingBodyEvent>::empty()) == 0);
        assert(body_goes_on(batches, events[0], steps[0]));
    } else {
        assert(body_goes_on(open_after(steps[i - 1]), events[i], steps[i]));
        the_end_follows_the_last_batch(batches, events, steps, i - 1);
        assert(events_before =~= events.take(i));
    }
    if i + 1 < steps.len() {
        assert(body_goes_on(open_after(steps[i]), events[i + 1], steps[i + 1]));
    }
}

/// The id under which a batch is sent to an agent.
pub fn batch_request_id() -> (request_id: String)
    ensures
        is_identifier(request_id@),
{
    fresh_identifier()
}

/// Batches are as even as possible: no two differ by more than one document.
pub proof fn shares_differ_by_at_most_one(count: nat, batches: nat, i: int, j: int)
    ensures
        even_share(count, batches, i) <= even_share(count, batches, j) + 1,
{
}

/// There is a batch for every agent, as long as there are documents for all of them;
/// the batches hold all documents with at most `cap` in each; and there are no more
/// batches than that takes: any smaller number leaves an agent without a batch, or
/// does not hold all documents.
pub proof fn batches_are_as_few_as_agents_and_cap_allow(
    count: nat,
    agent_count: nat,
    cap: nat,
    fewer: nat,
)
    requires
        agent_count > 0,
        cap > 0,
    ensures
        agent_count <= count ==> batch_count(count, agent_count, cap) >= agent_count,
        count <= agent_count ==> batch_count(count, agent_count, cap) == count,
        batch_count(count, agent_count, cap) <= count,
        batch_count(count, agent_count, cap) * cap >= count,
        fewer < batch_count(count, agent_count, cap) ==> (fewer < agent_count && fewer < count)
            || fewer * cap < count,
{
    let batches = batch_count(count, agent_count, cap);
    let needed = batches_needed(count, cap);
    assert(needed * cap >= count && needed <= count) by (nonlinear_arith)
        requires
            cap > 0,
            needed == if count % cap == 0 {
                count / cap
            } else {
                count / cap + 1
            },
    {
        vstd::arithmetic::div_mod::lemma_fundamental_div_mod(count as int, cap as int);
    };
    assert(batches * cap >= count) by (nonlinear_arith)
        requires
            batches >= needed,
            needed * cap >= count,
            cap > 0,
    ;
    if fewer < needed {
        assert(fewer * cap < count) by (nonlinear_arith)
            requires
                cap > 0,
                fewer < needed,
                needed == if count % cap == 0 {
                    count / cap
                } else {
                    count / cap + 1
                },
        {
            vstd::arithmetic::div_mod::lemma_fundamental_div_mod(count as int, cap as int);
        };
    }
}

/// The shares of that many batches.
pub open spec fn shares(count: nat, batches: nat, taken: nat) -> nat
    decreases taken,
{
    if taken == 0 {
        0
    } else {
        shares(count, batches, (taken - 1) as nat) + even_share(count, batches, taken - 1)
    }
}

proof fn lemma_shares(count: nat, batches: nat, taken: nat)
    requires
        0 < batches,
        taken <= batches,
    ensures
        shares(count, batches, taken) == taken * (count / batches) + if taken < count % batches {
            taken
        } else {
            count % batches
        },
    decreases taken,
{
    if taken > 0 {
        lemma_shares(count, batches, (taken - 1) as nat);
        let base = count / batches;
        assert(taken * base == (taken - 1) * base + base) by (nonlinear_arith);
    } else {
        assert(0 * (count / batches) == 0);
    }
}

/// The shares of all batches are all documents, and the larger ones come first.
pub proof fn shares_are_all_documents(count: nat, batches: nat, i: int, j: int)
    requires
        0 < batches,
        i <= j,
    ensures
        shares(count, batches, batches) == count,
        even_share(count, batches, i) >= even_share(count, batches, j),
        even_share(count, batches, i) <= even_share(count, batches, j) + 1,
{
    lemma_shares(count, batches, batches);
    vstd::arithmetic::div_mod::lemma_fundamental_div_mod(count as int, batches as int);
}

/// The documents of a further batch follow those of the batches before it, in the order
/// in which they stand in it.
pub proof fn documents_of_batches_keep_their_order(
    batches: Seq<GenerateEmbeddingBatchParams>,
    further: GenerateEmbeddingBatchParams,
)
    ensures
        joined(Seq::empty()).len() == 0,
        joined(batches.push(further)).len() == joined(batches).len() + further.input_batch@.len(),
        forall|i: int|
            0 <= i < joined(batches).len() ==> #[trigger] joined(batches.push(further))[i]
                == joined(batches)[i],
        forall|i: int|
            0 <= i < further.input_batch@.len() ==> joined(batches.push(further))[joined(
                batches,
            ).len() + i] == #[trigger] further.input_batch@[i],
{
    assert(batches.push(further).drop_last() =~= batches);
}

/// The batches hold all documents, each once and in their order. None is empty, none
/// holds more than it may, and no two differ by more than one document. Every agent
/// gets one, as long as there are documents for all; and with one batch less an agent
/// would go without, or a batch would be too large.
pub proof fn documents_are_spread_evenly(
    params: GenerateEmbeddingBatchParams,
    agent_count: usize,
    cap: usize,
    result: Result<Vec<GenerateEmbeddingBatchParams>, ChunkEvenlyWithCapError>,
    i: int,
    j: int,
)
    requires
        call_ensures(chunk_evenly_with_cap, (params, agent_count, cap), result),
    ensures
        result is Ok <==> agent_count > 0 && cap > 0,
        result == Err::<Vec<GenerateEmbeddingBatchParams>, ChunkEvenlyWithCapError>(
            ChunkEvenlyWithCapError::ZeroAgentCount,
        ) <==> agent_count == 0,
        result matches Ok(batches) ==> {
            let count = params.input_batch@.len();
            let fewer = batches@.len() - 1;
            &&& joined(batches@) == params.input_batch@
            &&& agent_count <= count ==> batches@.len() >= agent_count
            &&& batches@.len() * cap >= count
            &&& count > 0 ==> (fewer < agent_count && fewer < count) || fewer * cap < count
            &&& count == 0 ==> batches@.len() == 0
            &&& 0 <= i < batches@.len() && 0 <= j < batches@.len() ==> {
                &&& 1 <= batches@[i].input_batch@.len() <= cap
                &&& batches@[i].input_batch@.len() <= batches@[j].input_batch@.len() + 1
                &&& i <= j ==> batches@[i].input_batch@.len() >= batches@[j].input_batch@.len()
                &&& batches@[i].normalization_method == params.normalization_method
            }
        },
{
    if let Ok(batches) = result {
        let count = params.input_batch@.len();
        let fewer = if batches@.len() > 0 {
            (batches@.len() - 1) as nat
        } else {
            0
        };
        batches_are_as_few_as_agents_and_cap_allow(count, agent_count as nat, cap as nat, fewer);
        if batches@.len() > 0 {
            if 0 <= i < batches@.len() && 0 <= j < batches@.len() {
                assert(batches@[i].normalization_method == params.normalization_method);
                assert(batches@[j].normalization_method == params.normalization_method);
                shares_differ_by_at_most_one(count, batches@.len(), i, j);
            }
        }
    }
}

/// Embeddings are generated exactly if the balancer is in a state that asks its agents
/// for embeddings, in batches of at least one document, and some agent is there to.
/// The batches are then those that the documents are spread over.
pub proof fn embeddings_are_generated_where_they_are_asked_for(
    agent_desired_state: &Option<AgentDesiredState>,
    agent_count: usize,
    params: GenerateEmbeddingBatchParams,
    result: Result<Vec<GenerateEmbeddingBatchParams>, EmbeddingBatchRefusal>,
    status: u16,
    i: int,
)
    requires
        call_ensures(respond, (agent_desired_state, agent_count, params), result),
        result matches Err(refusal) ==> call_ensures(
            EmbeddingBatchRefusal::status,
            (&refusal,),
            status,
        ),
    ensures
        result is Ok <==> (*agent_desired_state matches Some(state)
            && state.inference_parameters.enable_embeddings
            && state.inference_parameters.embedding_batch_size > 0 && agent_count > 0),
        result matches Err(refusal) ==> {
            &&& refusal == EmbeddingBatchRefusal::ApplicableStateNotSet
                <==> *agent_desired_state is None
            &&& refusal == EmbeddingBatchRefusal::EmbeddingsNotEnabled <==> (
            *agent_desired_state matches Some(state)
                && !state.inference_parameters.enable_embeddings)
            &&& refusal == EmbeddingBatchRefusal::NoAgentsConnected <==> agent_count == 0 && (
            *agent_desired_state matches Some(state)
                && state.inference_parameters.enable_embeddings)
            &&& 500 <= status < 600
            &&& status == 503 <==> *agent_desired_state is None || refusal
                == EmbeddingBatchRefusal::NoAgentsConnected
            &&& status == 501 <==> (*agent_desired_state matches Some(state)
                && !state.inference_parameters.enable_embeddings)
        },
        result matches Ok(batches) ==> {
            &&& joined(batches@) == params.input_batch@
            &&& agent_count <= params.input_batch@.len() ==> batches@.len() >= agent_count
            &&& 0 <= i < batches@.len() ==> {
                &&& 1 <= batches@[i].input_batch@.len()
                    <= agent_desired_state->Some_0.inference_parameters.embedding_batch_size
                &&& batches@[i].normalization_method == params.normalization_method
            }
        },
{
}

/// Everything that is said about a batch is written as it is, but for its end. The end
/// of the answer is written exactly if the last batch is over, or if there was none.
pub proof fn a_body_ends_with_its_last_batch(
    batches: usize,
    begun: EmbeddingBodyStep,
    body: EmbeddingBody,
    event: EmbeddingBodyEvent,
    step: EmbeddingBodyStep,
)
    requires
        call_ensures(EmbeddingBody::begin, (batches,), begun),
        call_ensures(EmbeddingBody::advance, (body, event), step),
    ensures
        begun is Close <==> batches == 0,
        begun matches EmbeddingBodyStep::Wait(body) ==> body@ == batches,
        !(begun is Write),
        step is Close <==> event is BatchEnded && body@ == 1,
        event matches EmbeddingBodyEvent::Message(message) ==> {
            let ends_batch = message matches OutgoingMessage::Response(envelope)
                && envelope.response == AgentJsonRpcResponse::Embedding(EmbeddingResult::Done);
            &&& step is Wait <==> ends_batch
            &&& step matches EmbeddingBodyStep::Write(written, next) ==> written == message
                && next@ == body@
            &&& step matches EmbeddingBodyStep::Wait(next) ==> next@ == body@
        },
        event is BatchEnded ==> (step matches EmbeddingBodyStep::Wait(next) ==> next@ == body@ - 1),
        step matches EmbeddingBodyStep::Close(done) ==> {
            &&& done matches OutgoingMessage::Response(envelope)
            &&& envelope.response == AgentJsonRpcResponse::Embedding(EmbeddingResult::Done)
            &&& is_identifier(envelope.request_id@)
        },
{
}

/// A line of the body is what is to be written and the end of the line; nothing is
/// written exactly if there is nothing to write.
pub proof fn a_line_is_what_is_to_be_written(transformed: TransformResult, line: Option<String>)
    requires
        call_ensures(body_line, (transformed,), line),
    ensures
        line is None <==> transformed is Discard,
        line matches Some(line) ==> {
            let content = match transformed {
                TransformResult::Chunk(content) => content@,
                TransformResult::Error(content) => content@,
                TransformResult::Discard => Seq::empty(),
            };
            line@.len() == content.len() + 1 && line@.drop_last() == content && line@.last()
                == '\n'
        },
{
    reveal_strlit("\n");
    if let Some(line) = line {
        let content = match transformed {
            TransformResult::Chunk(content) => content@,
            TransformResult::Error(content) => content@,
            TransformResult::Discard => Seq::empty(),
        };
        assert(line@.drop_last() =~= content);
    }
}

} // verus!
