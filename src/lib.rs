//! Synthetic tabular data: column schemas, value providers, a presence policy
//! and chunked batch generation driven by deterministic random streams.
pub mod column;
pub mod error;
pub mod generator;
pub mod output;
pub mod plan;
pub mod provider;
pub mod rng;
pub mod stream;
pub mod value;
