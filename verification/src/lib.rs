//! Cost estimation for moving a MySQL-compatible workload to a serverless,
//! request-unit-billed database service.
//!
//! The statistics of a running server are summed over a window
//! ([`statements`], [`metrics`]), normalised into an hourly
//! [`source::WorkloadDescription`] ([`source::WorkloadDescription::mysql`],
//! [`source::WorkloadDescription::tidb`]) and priced per region by
//! [`calculator::estimate`]. Remarks on the quality of the statistics come
//! back as [`advisory::Advisory`] values; nothing is printed.
//!
//! Rates and sums are whole numbers of 64 bits. A function whose result may
//! not fit returns nothing in that case, and says in its contract exactly
//! when. Money is counted in whole cost units, see [`calculator`].
//!
//! What holds of every estimate and of every normalisation is stated and
//! proved in [`pricing_laws`] and [`normalization_laws`].

pub mod advisory;
pub mod calculator;
pub mod metrics;
pub mod normalization_laws;
pub mod output;
pub mod pattern;
pub mod pricing_laws;
pub mod prompt;
pub mod rates;
pub mod server;
pub mod source;
pub mod statements;
pub mod statistics;
pub mod text;
