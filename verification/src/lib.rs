//! Host telemetry snapshots and their renderings.
//!
//! The crate models one point-in-time reading of host metrics (memory, swap,
//! CPU, uptime, load average) as a [`snapshot::Snapshot`], derives the values
//! a report needs (used memory, percentages), and renders the snapshot either
//! as a JSON body or as a fixed-width text table, chosen by content
//! negotiation on the client's `User-Agent` header.
//!
//! Fractional quantities (percentages, gibibyte-scaled sizes, load averages)
//! are carried as integer hundredths throughout, so every derivation and both
//! renderings are exact integer and string computations.

pub mod numfmt;
pub mod render;
pub mod snapshot;
