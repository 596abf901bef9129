//! Decision logic of an LLM load balancer: what its agents report, how its
//! balancer picks and releases slots, how requests are forwarded, and how the
//! desktop front end moves between its screens.
pub mod agent;
pub mod balancer;
pub mod cluster;
pub mod gui;
pub mod messaging;
pub mod outside;
pub mod text;
