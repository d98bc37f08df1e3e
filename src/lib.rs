//! Issuer and holder sessions of a credential-issuance exchange: the role
//! state machines, the session store, and the orchestrating agent, with their
//! contracts and the laws that hold across operations.

pub mod model;
pub mod roles;
pub mod store;
pub mod agent;
pub mod laws;
