//! The desktop front end.
pub mod agent_running_data;
pub mod agent_running_handler;
pub mod app;
pub mod gpu_devices;
pub mod home_handler;
pub mod join_balancer_form_data;
pub mod join_balancer_form_handler;
pub mod message;
pub mod running_balancer_handler;
pub mod running_balancer_snapshot;
pub mod screen;
pub mod start_balancer_form_handler;
pub mod view_agent_card;
pub mod view_join_balancer_form;
