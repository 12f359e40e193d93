//! Mirror markets for questions found on forecasting platforms, track the
//! mapping between each question and its mirror, propagate resolutions, and
//! process payment-attached commands with money-safe ordering.
pub mod types;
pub mod text;
pub mod bindings;
pub mod command;
pub mod settings;
pub mod manifold;
pub mod db;
pub mod mirror;
pub mod metaculus;
pub mod managrams;
pub mod kalshi;
