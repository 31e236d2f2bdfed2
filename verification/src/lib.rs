//! Core logic of an IGMP-aware multicast routing daemon.
//!
//! The crate covers the parts of such a daemon that decide rather than
//! perform: which host interfaces qualify for multicast routing, how
//! virtual-interface (VIF) indices are assigned to them, how a raw IPv4
//! header is read out of a received datagram, how the arrival interface is
//! recovered from a chain of ancillary control records, what a receive
//! loop does with each outcome of a non-blocking read, and to which sink a
//! received packet is routed.  The kernel-facing work itself (sockets,
//! ioctls, the asynchronous receive loop) stays outside, handing this
//! crate plain values and acting on the decisions it returns.

pub mod dispatcher;
pub mod igmp;
pub mod pipeline;
pub mod vif;
