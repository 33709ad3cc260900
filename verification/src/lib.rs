//! How many points a segment must sample so that the segments' local results
//! together hold the global top results with a fixed coverage probability.
//!
//! The number of relevant points that land in one segment is modelled as a
//! Poisson variable whose mean, lambda, is the wanted result count times the
//! probability that a point lies in the segment. A table of Poisson quantiles,
//! computed ahead of time, turns a lambda into a sample size by one binary
//! search.

pub mod lambda;
pub mod lookup;
pub mod table;

pub use lambda::Lambda;
pub use lookup::find_search_sampling_over_point_distribution;
