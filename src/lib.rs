//! Host telemetry services: message types, exact memory-unit conversion,
//! wall-clock rendering, the decision logic of the connection engine, and the
//! state of the client that talks to both services.
pub mod client;
pub mod clock;
pub mod connection;
pub mod facts;
pub mod messages;
pub mod service;
pub mod startup;
