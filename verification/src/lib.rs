//! The coordination layer of a desktop client for a pulsar timing archive:
//! the request and message vocabulary, the resource caches that feed the
//! tables, the pipeline state machine with its progress aggregator, and the
//! decisions of the worker that talks to the archive.

pub mod application;
pub mod data_types;
pub mod ephemerides;
pub mod error;
pub mod helpers;
pub mod pipeline;
pub mod pulsars;
pub mod syncher;
pub mod text;
pub mod toas;
