//! Teardown of OCI containers: the container descriptor and the decisions
//! that drive the deletion of a container's on-disk state.
pub mod container;
pub mod delete;
pub mod netns;
