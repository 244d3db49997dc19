//! A minimal desktop application shell: a single greeting command and the
//! bootstrap decisions around a host framework's run loop.
//!
//! The host framework itself (windowing, command dispatch, the blocking run
//! loop) is an opaque collaborator that lives outside this library; what is
//! verified here is the one domain operation, [`greeting::greet`], and the
//! bootstrap plan and shutdown policy in [`bootstrap`].

pub mod bootstrap;
pub mod greeting;
