//! Safe, verified protocol layer over the platform's device-installation and
//! network-interface configuration facility.
//!
//! Every call into the facility itself is made by the embedding program; this
//! crate decides what each reply means: how a probe sizes a buffer, where an
//! enumeration ends, when an overlapped transfer has completed, how a wait is
//! classified, and how wide text is framed and decoded.

pub mod detail;
pub mod enumerate;
pub mod notify;
pub mod overlapped;
pub mod probe;
pub mod status;
pub mod wide;
