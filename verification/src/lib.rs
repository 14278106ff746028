//! Verified core of a gateway to a third-party payment-initiation API.
//!
//! The library builds the outbound HTTP requests (token fetch, payment
//! creation, status lookup), serialises the outgoing payment body, parses
//! and classifies provider responses, and drives the create-payment flow
//! as a state machine.  Sending bytes over the network is left to the
//! surrounding application, which hands responses back as plain values.

pub mod error;
pub mod model;
pub mod jsontext;
pub mod http;
pub mod gateway;
pub mod provider;
pub mod flow;
