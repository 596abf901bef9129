//! The part of a cluster that generates tokens and embeddings.
pub mod agent_service_bundle;
pub mod llamacpp_arbiter_service;
pub mod management_socket_client_service;
pub mod slot_aggregated_status;
pub mod token_throughput_meter;
