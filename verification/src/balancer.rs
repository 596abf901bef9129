//! The part of a cluster that distributes requests among agents.
pub mod agent_controller;
pub mod agent_controller_pool;
pub mod buffered_request_manager;
pub mod controls_manages_senders_endpoint;
pub mod get_agents;
pub mod post_generate_embedding_batch;
pub mod reconciliation_service;
pub mod request_from_agent;
pub mod sender_collection;
pub mod statsd_service;
pub mod ws_agent_socket;
pub mod ws_inference_socket;
