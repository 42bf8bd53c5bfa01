//! Boundary layer for carrying H3 cell indexes as first-class vector
//! elements in a host environment: an opaque wrapper around a validated
//! cell index, the class tags a vector of such wrappers is registered
//! under, and a failure-tolerant bulk conversion to canonical strings.

pub mod h3;
