//! Verified core of a payment-processing client: a two-phase bounded-retry
//! polling orchestrator.  Phase one submits a charge and polls it until its
//! status is terminal; phase two polls the charge, expanded with its
//! settlement sub-resource, until the settlement's gross amount is present.
//! The remote gateway, the JSON document model, the generic poller, the flow
//! decisions and the settlement report extraction all live here with
//! contracts; the network, the clock and the terminal output live outside.

pub mod error;
pub mod flow;
pub mod json;
pub mod model;
pub mod poller;
pub mod remote;
pub mod report;
pub mod settings;
pub mod text;
