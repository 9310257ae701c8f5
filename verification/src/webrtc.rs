//! ICE candidate pairs and the collector of statistics reports.
pub mod ice_candidate_pair;
pub mod stats_collector;
