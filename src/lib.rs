//! Fee-probe simulation engine: measures the buy-side transfer tax of a token
//! by sweeping swap sizes against a forked chain.
//!
//! The modules hold the decisions of the engine; talking to the fork is left
//! to the caller, which hands each outcome back as a plain value.
pub mod address;
pub mod amount;
pub mod bootstrap;
pub mod probe;
pub mod resolver;
pub mod run;
pub mod settings;
pub mod token;
pub mod simulation;
