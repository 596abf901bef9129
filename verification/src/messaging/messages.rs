//! The messages that the balancer, its agents and its clients exchange.
//!
//! What the library only hands on, such as a conversation or the metadata of a
//! model, is kept as the JSON document in which it travels.
use vstd::prelude::*;

use crate::messaging::slot_aggregated_status_snapshot::SlotAggregatedStatusSnapshot;

verus! {

/// A code with a description, as in a reply to a request that failed.
#[derive(Debug, PartialEq, Eq)]
pub struct JsonRpcError {
    pub code: i32,
    pub description: String,
}

/// The error that answers the request with the given id.
#[derive(Debug, PartialEq, Eq)]
pub struct ErrorEnvelope {
    pub error: JsonRpcError,
    pub request_id: String,
}

/// A chat template by its source text.
#[derive(Debug, PartialEq, Eq)]
pub struct ChatTemplate {
    pub content: String,
}

/// Which model an agent should run.
#[derive(Debug, PartialEq, Eq)]
pub enum AgentDesiredModel {
    /// A model of the Hugging Face hub.
    HuggingFace(String),
    /// A file on the agent.
    LocalToAgent(String),
    /// No model.
    Unset,
}

/// How agents should run their model.
#[derive(Debug, PartialEq, Eq)]
pub struct InferenceParameters {
    pub embedding_batch_size: usize,
    pub enable_embeddings: bool,
    /// The other parameters, as a JSON document.
    pub others: String,
}

/// The state that the balancer asks its agents to be in.
#[derive(Debug, PartialEq, Eq)]
pub struct AgentDesiredState {
    pub chat_template_override: Option<ChatTemplate>,
    pub inference_parameters: InferenceParameters,
    pub model: AgentDesiredModel,
    pub multimodal_projection: AgentDesiredModel,
}

impl Clone for ChatTemplate {
    fn clone(&self) -> (copy: Self)
        ensures
            copy == *self,
    {
        ChatTemplate { content: self.content.clone() }
    }
}

impl Clone for AgentDesiredModel {
    fn clone(&self) -> (copy: Self)
        ensures
            copy == *self,
    {
        match self {
            AgentDesiredModel::HuggingFace(reference) => AgentDesiredModel::HuggingFace(
                reference.clone(),
            ),
            AgentDesiredModel::LocalToAgent(path) => AgentDesiredModel::LocalToAgent(path.clone()),
            AgentDesiredModel::Unset => AgentDesiredModel::Unset,
        }
    }
}

impl Clone for InferenceParameters {
    fn clone(&self) -> (copy: Self)
        ensures
            copy == *self,
    {
        InferenceParameters {
            embedding_batch_size: self.embedding_batch_size,
            enable_embeddings: self.enable_embeddings,
            others: self.others.clone(),
        }
    }
}

impl Clone for AgentDesiredState {
    fn clone(&self) -> (copy: Self)
        ensures
            copy == *self,
    {
        AgentDesiredState {
            chat_template_override: match &self.chat_template_override {
                Some(template) => Some(template.clone()),
                None => None,
            },
            inference_parameters: self.inference_parameters.clone(),
            model: self.model.clone(),
            multimodal_projection: self.multimodal_projection.clone(),
        }
    }
}

/// The desired state, boxed for the notification that carries it.
#[derive(Debug, PartialEq, Eq)]
pub struct SetStateParams {
    pub desired_state: AgentDesiredState,
}

/// The version of the balancer.
#[derive(Debug, PartialEq, Eq)]
pub struct VersionParams {
    pub version: String,
}

/// A request to go on with a conversation.
#[derive(Debug, PartialEq, Eq)]
pub struct ContinueFromConversationHistoryParams {
    pub add_generation_prompt: bool,
    /// The messages of the conversation, as a JSON document.
    pub conversation_history: String,
    pub enable_thinking: bool,
    /// The grammar of the answer, as a JSON document.
    pub grammar: Option<String>,
    pub max_tokens: i32,
    pub parse_tool_calls: bool,
    /// The tools that the model may call, as a JSON document.
    pub tools: String,
}

/// A request to go on with a prompt.
#[derive(Debug, PartialEq, Eq)]
pub struct ContinueFromRawPromptParams {
    /// The grammar of the answer, as a JSON document.
    pub grammar: Option<String>,
    pub max_tokens: i32,
    pub raw_prompt: String,
}

/// A document to embed.
#[derive(Debug, PartialEq, Eq)]
pub struct EmbeddingInputDocument {
    pub content: String,
    pub id: String,
}

/// A request for the embeddings of documents.
#[derive(Debug, PartialEq, Eq)]
pub struct GenerateEmbeddingBatchParams {
    pub input_batch: Vec<EmbeddingInputDocument>,
    /// How to normalize the embeddings, as a JSON document.
    pub normalization_method: String,
}

/// What the balancer can ask of an agent.
#[derive(Debug, PartialEq, Eq)]
pub enum AgentJsonRpcRequest {
    ContinueFromConversationHistory(ContinueFromConversationHistoryParams),
    ContinueFromRawPrompt(ContinueFromRawPromptParams),
    GenerateEmbeddingBatch(GenerateEmbeddingBatchParams),
    GetChatTemplateOverride,
    GetModelMetadata,
}

/// A request with the id under which its responses come back.
#[derive(Debug, PartialEq, Eq)]
pub struct RequestEnvelope {
    pub id: String,
    pub request: AgentJsonRpcRequest,
}

/// What the balancer tells an agent without waiting for a response.
#[derive(Debug, PartialEq, Eq)]
pub enum AgentJsonRpcNotification {
    SetState(Box<SetStateParams>),
    StopRespondingTo(String),
    Version(VersionParams),
}

/// A message from the balancer to an agent.
#[derive(Debug, PartialEq, Eq)]
pub enum AgentJsonRpcMessage {
    Error(ErrorEnvelope),
    Notification(AgentJsonRpcNotification),
    Request(RequestEnvelope),
}

/// One step of a generation.
#[derive(Debug, PartialEq, Eq)]
pub enum GeneratedTokenResult {
    ContentToken(String),
    /// The last step, with the summary of the generation as a JSON document.
    Done(String),
    /// The cluster does not generate tokens, and why.
    TokenGenerationDisabled(String),
    /// Any other step, as a JSON document.
    Other(String),
}

/// One step of the embedding of a batch.
#[derive(Debug, PartialEq, Eq)]
pub enum EmbeddingResult {
    /// The last step.
    Done,
    /// Any other step, as a JSON document.
    Other(String),
}

/// What an agent answers.
#[derive(Debug, PartialEq, Eq)]
pub enum AgentJsonRpcResponse {
    ChatTemplateOverride(Option<ChatTemplate>),
    Embedding(EmbeddingResult),
    GeneratedToken(GeneratedTokenResult),
    /// The metadata of the model, as a JSON document.
    ModelMetadata(Option<String>),
}

/// An answer with the id of the request that it answers.
#[derive(Debug, PartialEq, Eq)]
pub struct ResponseEnvelope {
    pub generated_by: Option<String>,
    pub request_id: String,
    pub response: AgentJsonRpcResponse,
}

/// What an agent says about itself when it joins.
#[derive(Debug)]
pub struct RegisterAgentParams {
    pub name: Option<String>,
    pub slot_aggregated_status_snapshot: SlotAggregatedStatusSnapshot,
}

/// What an agent says about itself later on.
#[derive(Debug)]
pub struct UpdateAgentStatusParams {
    pub slot_aggregated_status_snapshot: SlotAggregatedStatusSnapshot,
}

/// What an agent tells the balancer without being asked.
#[derive(Debug)]
pub enum ManagementJsonRpcNotification {
    DeregisterAgent,
    RegisterAgent(RegisterAgentParams),
    UpdateAgentStatus(UpdateAgentStatusParams),
}

/// A message from an agent to the balancer.
#[derive(Debug)]
pub enum ManagementJsonRpcMessage {
    Error(ErrorEnvelope),
    Notification(ManagementJsonRpcNotification),
    Response(ResponseEnvelope),
}

} // verus!
