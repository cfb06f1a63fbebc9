//! Record kinds (users, jobs, organizations), their validation rules, and a
//! generic draft/list state manager with a create-versus-edit mode machine.

pub mod errors;
pub mod validation;
pub mod entity;
pub mod user;
pub mod job;
pub mod organization;
pub mod entity_manager;
pub mod entity_state;
pub mod message;
pub mod references;
pub mod app_state;
pub mod repositories;
pub mod services;
