//! Typed models of the Mattermost REST and websocket wire protocol, with a
//! verified mapping between each model and its JSON form.

pub mod fault;
pub mod json;
pub mod keyed;
pub mod laws;
pub mod models;
pub mod socket;
pub mod wire;
