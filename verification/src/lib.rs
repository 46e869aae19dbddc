//! Resolution of externally referenced packages.
//!
//! A manager owns an ordered list of local lookup backends, at most one
//! retrieval destination and at most one repository. A package is taken from
//! the first backend that holds it; one that no backend holds is fetched
//! through the repository into the destination, which serves it from then on.
//!
//! - [`package`]: the values that travel through a resolution.
//! - [`provider`]: the capabilities that a manager consumes, and the answers
//!   that they may give.
//! - [`error`]: the failures of a resolution, by kind.
//! - [`roots`]: where packages live by default.
//! - [`manager`]: the manager, its construction and its resolutions.
//! - [`laws`]: what holds of every resolution.

pub mod error;
pub mod laws;
pub mod manager;
pub mod package;
pub mod provider;
pub mod roots;
