//! Watch-driven reconciliation core of a minimal cluster-provisioning
//! controller.
//!
//! The library consumes events describing watched objects, extracts a
//! reconcile key from a well-known routing label, decides whether dependent
//! state already exists, and builds the payloads of the two dependent objects
//! (a selector object and a cluster object) that are created when it does not.
//! All decision logic is verified; the surrounding I/O (the cluster client,
//! the watch stream, the actual list and create calls) lives outside the
//! library and exchanges plain values with it.

pub mod builder;
pub mod json;
pub mod laws;
pub mod object;
pub mod reconcile;
