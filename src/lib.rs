//! Applies a batch of patch files to a working directory: infers for each
//! patch how many leading path components to strip, and drives the external
//! patch tool one patch at a time, stopping at the first failure.
pub mod paths;
pub mod strip;
pub mod batch;
pub mod laws;
