//! Open-EQMS Runtime library: shared Runtime data contracts, the Business
//! Event Log, the Object Runtime, the minimal Security authorization provider,
//! the Query Engine core with its canonical encodings, Process Definition
//! rules, and the demonstration's asset model, registration steps, input
//! handling and text rendering, each with its behaviour stated as Verus
//! contracts.
#![allow(unused_imports)]

pub mod text;
pub mod collections;
pub mod contracts;
pub mod numbers;
pub mod pattern;
pub mod values;
pub mod event_types;
pub mod event_errors;
pub mod event_validation;
pub mod event_engine;
pub mod object_types;
pub mod object_errors;
pub mod object_validation;
pub mod object_runtime;
pub mod security;
pub mod query_types;
pub mod query_errors;
pub mod query_limits;
pub mod query_validation;
pub mod query_compare;
pub mod query_execution;
pub mod query_results;
pub mod query_aggregation;
pub mod query_engine;
pub mod ordering_keys;
pub mod query_canonical;
pub mod query_canonical_laws;
pub mod boundary_laws;
pub mod operation_laws;
pub mod aggregation_laws;
pub mod process_types;
pub mod process_errors;
pub mod process_validation;
pub mod process_engine;
pub mod demo;
pub mod demo_storage;
pub mod demo_input;
pub mod asset_model;
pub mod presentation;
pub mod timeline;
