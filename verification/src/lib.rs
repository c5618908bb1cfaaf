//! A dynamic-DNS update agent core.
//!
//! The agent watches the addresses bound to configured local network
//! interfaces, decides per address family whether a freshly scanned address is
//! an eligible candidate that differs from the last successfully propagated
//! one, renders the provider's HTTP update request from a path template, and
//! walks the configured hostname variants strictly in order, aborting on the
//! first failure.  New addresses are committed only when every hostname was
//! updated; on any failure the previously confirmed state is kept unchanged.

pub mod addr;
pub mod config;
pub mod coordinator;
pub mod scan;
pub mod session;
pub mod strutil;
pub mod template;
