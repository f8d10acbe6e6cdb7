//! A verified core for a country-flag posting bot: loading a code -> name
//! dataset, drawing a random entry, and planning the upload-then-post cycle.

pub mod dataset;
pub mod publish;
pub mod schedule;
