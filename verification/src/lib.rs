//! Incremental harvester for a single web forum's submission history.
//!
//! The library walks backward through time by repeatedly querying a
//! paginated, time-range-filtered search endpoint. Its core is an adaptive
//! time-window crawl algorithm: a state machine that tracks a shrinking
//! time cursor, resizes the query window so each page lands in a target
//! item-count band, paginates within a window while the server hands out
//! continuation tokens, detects when the forum's whole history has been
//! traversed, and enforces a minimum delay between requests.
//!
//! The verified modules hold the data model and every decision the crawl
//! makes. The HTTP transport, JSON decoding and credential exchange are
//! left to the host process, which feeds plain values (status codes,
//! item counts, tokens, clock readings) into the functions here.

pub mod api;
pub mod auth;
pub mod clock;
pub mod engine;
pub mod laws;
