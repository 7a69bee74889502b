//! A request router for a conversational assistant: free-text chat commands
//! are classified into typed requests (dictionary lookup, air-quality lookup,
//! how-to lookup) and resolved against external information services.
//!
//! The router's logic is verified: the command grammar, the coordinate
//! extraction from geocoding candidates, the air-quality resolution pipeline
//! with its address-to-keyword geocoding fallback, and the command-driven
//! filtering of pollutant readings. The network calls themselves are made by
//! the surrounding application, which feeds their results back in as plain
//! values.

pub mod air;
pub mod coord;
pub mod dispatch;
pub mod parser;
pub mod text;
pub mod types;
