//! Test doubles for interceptors: a builder made from a closure, and a clock
//! whose time is set by hand.
pub mod mock_builder;
pub mod mock_time;
