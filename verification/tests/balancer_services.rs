use cadence::BufferedSpyMetricSink;
use cadence::Gauged;
use cadence::MetricError;
use cadence::SpyMetricSink;
use cadence::StatsdClient;
use tokio::sync::mpsc;

use paddler::balancer::agent_controller::AgentController;
use paddler::balancer::agent_controller_pool::AgentControllerPool;
use paddler::balancer::buffered_request_manager::BufferedRequestManager;
use paddler::balancer::controls_manages_senders_endpoint::ask_agent;
use paddler::balancer::controls_manages_senders_endpoint::respond as endpoint_response;
use paddler::balancer::controls_manages_senders_endpoint::EndpointEvent;
use paddler::balancer::controls_manages_senders_endpoint::ResponseBody;
use paddler::balancer::controls_manages_senders_endpoint::TIMEOUT_SECONDS;
use paddler::balancer::post_generate_embedding_batch::batch_request_id;
use paddler::balancer::post_generate_embedding_batch::body_line;
use paddler::balancer::post_generate_embedding_batch::chunk_evenly_with_cap;
use paddler::balancer::post_generate_embedding_batch::final_done_message;
use paddler::balancer::post_generate_embedding_batch::respond as embedding_response;
use paddler::balancer::post_generate_embedding_batch::transform;
use paddler::balancer::post_generate_embedding_batch::EmbeddingBody;
use paddler::balancer::post_generate_embedding_batch::EmbeddingBodyEvent;
use paddler::balancer::post_generate_embedding_batch::EmbeddingBodyStep;
use paddler::balancer::post_generate_embedding_batch::ChunkEvenlyWithCapError;
use paddler::balancer::post_generate_embedding_batch::EmbeddingBatchRefusal;
use paddler::balancer::post_generate_embedding_batch::EmbeddingChunk;
use paddler::balancer::post_generate_embedding_batch::TransformResult;
use paddler::balancer::reconciliation_service::name as reconciliation_service_name;
use paddler::balancer::reconciliation_service::BalancerApplicableState;
use paddler::balancer::reconciliation_service::BalancerApplicableStateHolder;
use paddler::balancer::reconciliation_service::BalancerDesiredState;
use paddler::balancer::reconciliation_service::ReconciliationError;
use paddler::balancer::reconciliation_service::ReconciliationEvent;
use paddler::balancer::reconciliation_service::ReconciliationService;
use paddler::balancer::reconciliation_service::ReconciliationStep;
use paddler::balancer::request_from_agent::request_from_agent;
use paddler::balancer::request_from_agent::respond_with_error;
use paddler::balancer::request_from_agent::OutgoingMessage;
use paddler::balancer::sender_collection::SenderCollection;
use paddler::balancer::statsd_service::emission_step;
use paddler::balancer::statsd_service::name as statsd_service_name;
use paddler::balancer::statsd_service::report_metrics;
use paddler::balancer::statsd_service::EmissionStep;
use paddler::balancer::statsd_service::Gauge;
use paddler::balancer::statsd_service::Metric;
use paddler::messaging::messages::AgentDesiredModel;
use paddler::messaging::messages::AgentDesiredState;
use paddler::messaging::messages::AgentJsonRpcMessage;
use paddler::messaging::messages::AgentJsonRpcRequest;
use paddler::messaging::messages::AgentJsonRpcResponse;
use paddler::messaging::messages::EmbeddingInputDocument;
use paddler::messaging::messages::EmbeddingResult;
use paddler::messaging::messages::GenerateEmbeddingBatchParams;
use paddler::messaging::messages::InferenceParameters;
use paddler::messaging::messages::ResponseEnvelope;
use paddler::messaging::slot_aggregated_status_snapshot::SlotAggregatedStatusSnapshot;

fn register(
    pool: &mut AgentControllerPool,
    agent_id: &str,
    slots_processing: i32,
    slots_total: i32,
) -> mpsc::UnboundedReceiver<AgentJsonRpcMessage> {
    let (agent_message_tx, agent_message_rx) = mpsc::unbounded_channel();

    pool.register_agent_controller(
        agent_id.to_owned(),
        AgentController::from_registration(
            agent_message_tx,
            1,
            agent_id.to_owned(),
            None,
            SlotAggregatedStatusSnapshot {
                slots_processing,
                slots_total,
                ..SlotAggregatedStatusSnapshot::default()
            },
        ),
    )
    .unwrap();

    agent_message_rx
}

fn desired_state(enable_embeddings: bool, embedding_batch_size: usize) -> AgentDesiredState {
    AgentDesiredState {
        chat_template_override: None,
        inference_parameters: InferenceParameters {
            embedding_batch_size,
            enable_embeddings,
            others: "{}".to_owned(),
        },
        model: AgentDesiredModel::LocalToAgent("model.gguf".to_owned()),
        multimodal_projection: AgentDesiredModel::Unset,
    }
}

fn documents(count: usize) -> GenerateEmbeddingBatchParams {
    GenerateEmbeddingBatchParams {
        input_batch: (1..=count)
            .map(|number| EmbeddingInputDocument {
                content: "the quick brown fox".to_owned(),
                id: format!("doc-{number}"),
            })
            .collect(),
        normalization_method: "\"None\"".to_owned(),
    }
}

fn batch_sizes(count: usize, agent_count: usize, cap: usize) -> Vec<usize> {
    let batches = chunk_evenly_with_cap(documents(count), agent_count, cap).unwrap();
    let ids: Vec<String> = batches
        .iter()
        .flat_map(|batch| batch.input_batch.iter().map(|document| document.id.clone()))
        .collect();
    let expected: Vec<String> = (1..=count).map(|number| format!("doc-{number}")).collect();

    assert_eq!(ids, expected);

    batches
        .iter()
        .map(|batch| batch.input_batch.len())
        .collect()
}

fn not_converted() -> ReconciliationService {
    ReconciliationService {
        balancer_desired_state: BalancerDesiredState::default(),
        is_converted_to_applicable_state: false,
    }
}

fn converted_state() -> BalancerApplicableState {
    BalancerApplicableState {
        agent_desired_state: desired_state(false, 256),
    }
}

#[test]
fn responds_service_unavailable_when_balancer_state_is_not_set() {
    let refusal = embedding_response(&None, 0, documents(1)).err().unwrap();

    assert_eq!(refusal.status(), 503);
    assert_eq!(refusal.message(), "Balancer applicable state is not yet set");
}

#[test]
fn responds_service_unavailable_when_no_agents_are_connected() {
    let pool = AgentControllerPool::default();

    let refusal = embedding_response(&Some(desired_state(true, 256)), pool.len(), documents(1))
        .err()
        .unwrap();

    assert_eq!(refusal.status(), 503);
    assert_eq!(refusal.message(), "No agents are currently connected");
}

#[test]
fn responds_internal_server_error_when_embedding_batch_size_is_zero() {
    let mut pool = AgentControllerPool::default();

    drop(register(&mut pool, "agent-zero", 0, 1));

    let refusal = embedding_response(&Some(desired_state(true, 0)), pool.len(), documents(1))
        .err()
        .unwrap();

    assert_eq!(refusal.status(), 500);
    assert_eq!(
        refusal.message(),
        "embedding_batch_size is zero despite validation"
    );
}

#[test]
fn embeddings_have_to_be_enabled() {
    let refusal = embedding_response(&Some(desired_state(false, 256)), 1, documents(1))
        .err()
        .unwrap();

    assert_eq!(refusal, EmbeddingBatchRefusal::EmbeddingsNotEnabled);
    assert_eq!(refusal.status(), 501);
    assert_eq!(
        refusal.message(),
        "Embedding generation is not enabled in the inference parameters"
    );
}

#[test]
fn streams_error_chunk_when_agent_request_fails() {
    let mut pool = AgentControllerPool::default();

    drop(register(&mut pool, "agent-closed", 0, 1));

    let batches =
        embedding_response(&Some(desired_state(true, 256)), pool.len(), documents(1)).unwrap();

    assert_eq!(batches.len(), 1);

    let mut senders = SenderCollection::default();

    for batch in batches {
        let request_id = batch_request_id();

        assert_eq!(request_id.len(), 21);

        let dispatched_agent = pool.take_least_busy_agent_controller().unwrap();
        let failed = request_from_agent(
            dispatched_agent,
            1_000,
            request_id.clone(),
            &mut senders,
            1,
            AgentJsonRpcRequest::GenerateEmbeddingBatch(batch),
        )
        .err()
        .unwrap();
        let message = respond_with_error(failed.error, request_id);

        assert_eq!(transform(&message), EmbeddingChunk::Serialize);
        assert!(matches!(
            message,
            OutgoingMessage::Error(envelope)
                if envelope.error.description == "Failed to generate response"
        ));
    }
}

#[test]
fn documents_are_split_as_evenly_as_possible() {
    assert_eq!(batch_sizes(10, 3, 256), vec![4, 3, 3]);
    assert_eq!(batch_sizes(2, 5, 256), vec![1, 1]);
    assert_eq!(batch_sizes(10, 2, 3), vec![3, 3, 2, 2]);
    assert_eq!(batch_sizes(6, 1, 6), vec![6]);
    assert_eq!(batch_sizes(7, 1, 6), vec![4, 3]);
    assert!(batch_sizes(0, 4, 6).is_empty());
    assert_eq!(
        chunk_evenly_with_cap(documents(1), 0, 0).err(),
        Some(ChunkEvenlyWithCapError::ZeroAgentCount)
    );
    assert_eq!(
        chunk_evenly_with_cap(documents(1), 1, 0).err(),
        Some(ChunkEvenlyWithCapError::ZeroMaxDocumentsPerChunk)
    );
}

#[test]
fn the_end_of_one_batch_is_not_the_end_of_all() {
    let done = final_done_message();

    assert_eq!(transform(&done), EmbeddingChunk::Discard);
    assert!(matches!(
        done,
        OutgoingMessage::Response(envelope)
            if envelope.request_id.len() == 21 && envelope.generated_by.is_none()
    ));
    assert_eq!(
        transform(&OutgoingMessage::Response(ResponseEnvelope {
            generated_by: None,
            request_id: "request".to_owned(),
            response: AgentJsonRpcResponse::Embedding(EmbeddingResult::Other("{}".to_owned())),
        })),
        EmbeddingChunk::Serialize
    );
    assert_eq!(
        body_line(TransformResult::Chunk("{}".to_owned())),
        Some("{}\n".to_owned())
    );
    assert_eq!(
        body_line(TransformResult::Error("error".to_owned())),
        Some("error\n".to_owned())
    );
    assert_eq!(body_line(TransformResult::Discard), None);
}

fn embedding_message(response: EmbeddingResult) -> EmbeddingBodyEvent {
    EmbeddingBodyEvent::Message(OutgoingMessage::Response(ResponseEnvelope {
        generated_by: None,
        request_id: "batch".to_owned(),
        response: AgentJsonRpcResponse::Embedding(response),
    }))
}

#[test]
fn the_answer_ends_after_its_last_batch() {
    let EmbeddingBodyStep::Wait(body) = EmbeddingBody::begin(2) else {
        panic!("two batches are not over");
    };
    let EmbeddingBodyStep::Write(written, body) =
        body.advance(embedding_message(EmbeddingResult::Other("{}".to_owned())))
    else {
        panic!("an embedding must be written");
    };

    assert!(matches!(
        written,
        OutgoingMessage::Response(envelope) if envelope.request_id == "batch"
    ));

    let EmbeddingBodyStep::Wait(body) = body.advance(embedding_message(EmbeddingResult::Done))
    else {
        panic!("the end of one batch is not the end of all");
    };
    let EmbeddingBodyStep::Wait(body) = body.advance(EmbeddingBodyEvent::BatchEnded) else {
        panic!("one batch is not over");
    };

    assert!(matches!(
        body.advance(EmbeddingBodyEvent::BatchEnded),
        EmbeddingBodyStep::Close(OutgoingMessage::Response(envelope))
            if envelope.response == AgentJsonRpcResponse::Embedding(EmbeddingResult::Done)
                && envelope.request_id.len() == 21
    ));
    assert!(matches!(
        EmbeddingBody::begin(0),
        EmbeddingBodyStep::Close(_)
    ));
}

#[test]
fn convert_to_applicable_state_sets_flag_and_stores_state_for_empty_pool() {
    let mut pool = AgentControllerPool::default();
    let mut holder = BalancerApplicableStateHolder::default();
    let mut service = not_converted();

    service
        .convert_to_applicable_state(&mut pool, &mut holder, Some(converted_state()))
        .unwrap();

    assert!(service.is_converted_to_applicable_state);
    assert_eq!(
        holder.get_agent_desired_state(),
        Some(desired_state(false, 256))
    );
    assert_eq!(
        holder.get_balancer_applicable_state(),
        Some(converted_state())
    );
}

#[test]
fn convert_to_applicable_state_errors_when_agent_message_receiver_dropped() {
    let mut pool = AgentControllerPool::default();

    drop(register(&mut pool, "agent-test", 0, 0));

    let mut holder = BalancerApplicableStateHolder::default();
    let mut service = not_converted();

    let result =
        service.convert_to_applicable_state(&mut pool, &mut holder, Some(converted_state()));

    assert_eq!(result, Err(ReconciliationError::AgentUnreachable));
    assert!(!service.is_converted_to_applicable_state);
    assert_eq!(holder.get_agent_desired_state(), None);
}

#[test]
fn try_convert_to_applicable_state_keeps_flag_false_when_agent_send_fails() {
    let mut pool = AgentControllerPool::default();

    drop(register(&mut pool, "agent-test", 0, 0));

    let mut holder = BalancerApplicableStateHolder::default();
    let mut service = not_converted();

    assert_eq!(
        service.run(ReconciliationEvent::DesiredStateReceived(
            BalancerDesiredState::default()
        )),
        ReconciliationStep::Convert
    );

    let _ = service.convert_to_applicable_state(&mut pool, &mut holder, Some(converted_state()));

    assert!(!service.is_converted_to_applicable_state);
    assert_eq!(
        service.run(ReconciliationEvent::Tick),
        ReconciliationStep::Convert
    );
}

#[test]
fn desired_states_are_converted_until_they_are_in_effect() {
    let mut pool = AgentControllerPool::default();
    let mut agent_message_rx = register(&mut pool, "agent-test", 0, 0);
    let mut holder = BalancerApplicableStateHolder::default();
    let mut service = not_converted();

    assert_eq!(
        service.convert_to_applicable_state(&mut pool, &mut holder, None),
        Err(ReconciliationError::ConversionFailed)
    );
    assert_eq!(
        service.run(ReconciliationEvent::Tick),
        ReconciliationStep::Convert
    );

    service
        .convert_to_applicable_state(&mut pool, &mut holder, Some(converted_state()))
        .unwrap();

    assert!(agent_message_rx.try_recv().is_ok());
    assert_eq!(
        service.run(ReconciliationEvent::Tick),
        ReconciliationStep::Wait
    );
    assert_eq!(
        service.run(ReconciliationEvent::DesiredStateReceived(
            BalancerDesiredState::default()
        )),
        ReconciliationStep::Convert
    );
    assert!(!service.is_converted_to_applicable_state);
    assert_eq!(
        service.run(ReconciliationEvent::ReceiveFailed),
        ReconciliationStep::Fail
    );
    assert_eq!(
        service.run(ReconciliationEvent::Shutdown),
        ReconciliationStep::Stop
    );
    assert_eq!(
        reconciliation_service_name(),
        "balancer::reconciliation_service"
    );
}

#[test]
fn responds_not_found_when_response_channel_yields_no_value() {
    assert_eq!(
        endpoint_response(EndpointEvent::ResponseChannelClosed).status,
        404
    );
}

#[test]
fn an_agent_answers_in_time_or_not_at_all() {
    assert_eq!(
        endpoint_response(EndpointEvent::AgentConnectionClosed).status,
        502
    );
    assert_eq!(endpoint_response(EndpointEvent::TimedOut).status, 504);
    assert_eq!(TIMEOUT_SECONDS, 3);

    let answer = endpoint_response(EndpointEvent::Response(
        AgentJsonRpcResponse::ModelMetadata(Some("{}".to_owned())),
    ));

    assert_eq!(answer.status, 200);
    assert!(matches!(
        answer.body,
        ResponseBody::Json(AgentJsonRpcResponse::ModelMetadata(Some(metadata))) if metadata == "{}"
    ));
}

#[test]
fn only_connected_agents_can_be_asked() {
    let mut pool = AgentControllerPool::default();
    let mut senders = SenderCollection::default();
    let mut ask = |pool: &mut AgentControllerPool| {
        ask_agent(
            pool,
            "agent-test",
            &mut senders,
            4,
            AgentJsonRpcRequest::GetModelMetadata,
        )
    };

    assert_eq!(ask(&mut pool).err().unwrap().status, 404);

    let mut agent_message_rx = register(&mut pool, "agent-test", 0, 0);
    let request_id = ask(&mut pool).unwrap();

    assert!(matches!(
        agent_message_rx.try_recv().unwrap(),
        AgentJsonRpcMessage::Request(envelope)
            if envelope.id == request_id
                && envelope.request == AgentJsonRpcRequest::GetModelMetadata
    ));

    drop(agent_message_rx);

    let response = ask(&mut pool).err().unwrap();

    assert_eq!(response.status, 500);
    assert!(matches!(response.body, ResponseBody::Text(text) if text == "channel closed"));
    assert_eq!(senders.sender_for(&request_id), Some(4));
}

#[test]
fn name_identifies_the_statsd_service() {
    assert_eq!(statsd_service_name(), "balancer::statsd_service");
}

#[test]
fn the_metrics_of_an_empty_pool_are_zero() {
    let pool = AgentControllerPool::default();
    let manager = BufferedRequestManager::new(10);

    let lines: Vec<String> = report_metrics(&pool, &manager, 0)
        .unwrap()
        .iter()
        .map(|gauge| format!("{}:{}", gauge.metric.name(), gauge.value))
        .collect();

    assert_eq!(
        lines,
        vec![
            "slots_processing:0".to_owned(),
            "slots_total:0".to_owned(),
            "requests_buffered:0".to_owned(),
            "tokens_per_second:0".to_owned(),
        ]
    );
}

#[test]
fn the_metrics_are_those_of_all_agents() {
    let mut pool = AgentControllerPool::default();
    let mut manager = BufferedRequestManager::new(10);

    drop(register(&mut pool, "first", 1, 4));
    drop(register(&mut pool, "second", 2, 8));
    manager.increment();

    let gauges = report_metrics(&pool, &manager, 21).unwrap();

    assert_eq!(gauges[0].metric, Metric::SlotsProcessing);
    assert_eq!(
        gauges.iter().map(|gauge| gauge.value).collect::<Vec<u64>>(),
        vec![3, 12, 1, 21]
    );
}

#[test]
fn report_metrics_rejects_negative_slots_processing() {
    let mut pool = AgentControllerPool::default();
    let manager = BufferedRequestManager::new(10);

    drop(register(&mut pool, "agent", -1, 0));

    assert_eq!(
        report_metrics(&pool, &manager, 0).err().unwrap().message(),
        "slots_processing count is negative"
    );
}

#[test]
fn report_metrics_rejects_negative_slots_total() {
    let mut pool = AgentControllerPool::default();
    let manager = BufferedRequestManager::new(10);

    drop(register(&mut pool, "agent", 0, -1));

    assert_eq!(
        report_metrics(&pool, &manager, 0).err().unwrap().message(),
        "slots_total count is negative"
    );
}

#[test]
fn report_metrics_rejects_negative_requests_buffered() {
    let pool = AgentControllerPool::default();
    let mut manager = BufferedRequestManager::new(10);

    manager.decrement();

    assert_eq!(
        report_metrics(&pool, &manager, 0).err().unwrap().message(),
        "requests_buffered count is negative"
    );
}

const STATSD_PREFIX: &str = "paddler";

fn send_metrics(gauges: &Vec<Gauge>, client: &StatsdClient) -> Result<(), MetricError> {
    let mut finished = 0;
    let mut last = Ok(());

    loop {
        last = match emission_step(gauges, finished, last.is_ok()) {
            EmissionStep::Emit(gauge) => client
                .gauge(gauge.metric.name(), gauge.value)
                .map(|_| ()),
            EmissionStep::Flush => client.flush(),
            EmissionStep::Done | EmissionStep::Fail => return last,
        };
        finished += 1;
    }
}

fn gauges_of_an_empty_pool() -> Vec<Gauge> {
    report_metrics(
        &AgentControllerPool::default(),
        &BufferedRequestManager::new(10),
        0,
    )
    .unwrap()
}

#[test]
fn report_metrics_propagates_error_from_the_first_gauge_emit() {
    let (receiver, sink) = SpyMetricSink::new();

    drop(receiver);

    let client = StatsdClient::builder(STATSD_PREFIX, sink).build();

    assert!(send_metrics(&gauges_of_an_empty_pool(), &client).is_err());
}

#[test]
fn report_metrics_propagates_error_from_the_second_gauge_emit() {
    let (receiver, sink) = SpyMetricSink::with_capacity(1);
    let client = StatsdClient::builder(STATSD_PREFIX, sink).build();

    assert!(send_metrics(&gauges_of_an_empty_pool(), &client).is_err());
    assert_eq!(receiver.len(), 1);
}

#[test]
fn report_metrics_propagates_error_from_the_third_gauge_emit() {
    let (receiver, sink) = SpyMetricSink::with_capacity(2);
    let client = StatsdClient::builder(STATSD_PREFIX, sink).build();

    assert!(send_metrics(&gauges_of_an_empty_pool(), &client).is_err());
    assert_eq!(receiver.len(), 2);
}

#[test]
fn report_metrics_propagates_error_from_the_flush() {
    let (receiver, sink) = BufferedSpyMetricSink::new();
    let client = StatsdClient::builder(STATSD_PREFIX, sink).build();

    drop(receiver);

    assert!(send_metrics(&gauges_of_an_empty_pool(), &client).is_err());
}

#[test]
fn a_report_is_sent_in_order() {
    let (receiver, sink) = SpyMetricSink::new();
    let client = StatsdClient::builder(STATSD_PREFIX, sink).build();

    assert!(send_metrics(&gauges_of_an_empty_pool(), &client).is_ok());

    let lines: Vec<String> = receiver
        .try_iter()
        .map(|line| String::from_utf8(line).unwrap())
        .collect();

    assert_eq!(
        lines,
        vec![
            "paddler.slots_processing:0|g",
            "paddler.slots_total:0|g",
            "paddler.requests_buffered:0|g",
            "paddler.tokens_per_second:0|g",
        ]
    );
}
